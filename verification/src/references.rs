use vstd::prelude::*;
use vstd::string::*;
use vstd::utf8::is_ascii_chars;
use crate::definitions::{display_name, Cardinality, FieldKind, FieldType};
use crate::error::ScaffoldError;
use crate::naming::{case_converted, is_in_case, pluralized, CaseStyle};
use crate::naming::{is_case, pluralize, to_case};
use crate::text::{first_segment, has_second_segment, leading_segments, second_segment};

verus! {

/// Another entry type, and the kind of hash by which it is referred to: the
/// hash of the entry where the flag is set, else that of the action.
#[derive(Clone, Debug, PartialEq, Eq)]
pub struct EntryTypeReference {
    pub entry_type: String,
    pub reference_entry_hash: bool,
}

pub ghost struct EntryTypeReferenceView {
    pub entry_type: Seq<char>,
    pub reference_entry_hash: bool,
}

impl View for EntryTypeReference {
    type V = EntryTypeReferenceView;

    open spec fn view(&self) -> EntryTypeReferenceView {
        EntryTypeReferenceView {
            entry_type: self.entry_type@,
            reference_entry_hash: self.reference_entry_hash,
        }
    }
}

/// What a link or a reference can point at.
#[derive(Clone, Debug, PartialEq, Eq)]
pub enum Referenceable {
    Agent { role: String },
    EntryType(EntryTypeReference),
}

pub ghost enum ReferenceableView {
    Agent { role: Seq<char> },
    EntryType(EntryTypeReferenceView),
}

impl View for Referenceable {
    type V = ReferenceableView;

    open spec fn view(&self) -> ReferenceableView {
        match self {
            Referenceable::Agent { role } => ReferenceableView::Agent { role: role@ },
            Referenceable::EntryType(reference) => ReferenceableView::EntryType(reference@),
        }
    }
}

/// The hash type that points at an entry type.
pub open spec fn entry_hash_kind(reference_entry_hash: bool) -> FieldKind {
    if reference_entry_hash {
        FieldKind::EntryHash
    } else {
        FieldKind::ActionHash
    }
}

/// The name of a field that holds references to an entry type: the name of
/// the entry type, pluralized for a list, in snake case, and then the suffix.
pub open spec fn entry_field_name(entry_type: Seq<char>, cardinality: Cardinality) -> Seq<char> {
    match cardinality {
        Cardinality::Vector => case_converted(CaseStyle::Snake, pluralized(entry_type, 2))
            + "_hashes"@,
        _ => case_converted(CaseStyle::Snake, entry_type) + "_hash"@,
    }
}

/// The name by which an entry type is displayed: plural for a list, else
/// singular.
pub open spec fn entry_display_name(entry_type: Seq<char>, cardinality: Cardinality) -> Seq<char> {
    match cardinality {
        Cardinality::Vector => pluralized(entry_type, 2),
        _ => pluralized(entry_type, 1),
    }
}

/// What the segment after the colon says of the hash: absent, it says the
/// hash of the action; `None` stands for a segment that is neither literal.
pub open spec fn hash_choice(text: Seq<char>) -> Option<bool> {
    if !has_second_segment(text) {
        Some(false)
    } else if second_segment(text) == "EntryHash"@ {
        Some(true)
    } else if second_segment(text) == "ActionHash"@ {
        Some(false)
    } else {
        None
    }
}

pub open spec fn entry_reference_case_message() -> Seq<char> {
    "entry type reference must be in snake_case"@
}

pub open spec fn referenceable_case_message() -> Seq<char> {
    "referenceable must be in snake_case"@
}

pub open spec fn hash_choice_message() -> Seq<char> {
    "second argument for reference type must be \"EntryHash\" or \"ActionHash\""@
}

/// What reading `text` as a reference to an entry type gives: the reference,
/// or the message of the refusal in `Err`, with `true` beside it where the
/// case of the name is at fault.
pub open spec fn parsed_entry_reference(text: Seq<char>) -> Result<
    EntryTypeReferenceView,
    (bool, Seq<char>),
> {
    if !is_in_case(CaseStyle::Snake, first_segment(text)) {
        Err((true, entry_reference_case_message()))
    } else {
        match hash_choice(text) {
            Some(reference_entry_hash) => Ok(
                EntryTypeReferenceView {
                    entry_type: case_converted(CaseStyle::Pascal, first_segment(text)),
                    reference_entry_hash,
                },
            ),
            None => Err((false, hash_choice_message())),
        }
    }
}

/// What reading `text` as a referenceable gives, in the form of
/// `parsed_entry_reference`.
pub open spec fn parsed_referenceable(text: Seq<char>) -> Result<
    ReferenceableView,
    (bool, Seq<char>),
> {
    if !is_in_case(CaseStyle::Snake, first_segment(text)) {
        Err((true, referenceable_case_message()))
    } else if first_segment(text) == "agent"@ {
        Ok(
            ReferenceableView::Agent {
                role: if has_second_segment(text) {
                    second_segment(text)
                } else {
                    "agent"@
                },
            },
        )
    } else {
        match parsed_entry_reference(text) {
            Ok(reference) => Ok(ReferenceableView::EntryType(reference)),
            Err(refusal) => Err(refusal),
        }
    }
}

/// The error that stands for a refusal.
pub open spec fn is_refusal(error: ScaffoldError, refusal: (bool, Seq<char>)) -> bool {
    match error {
        ScaffoldError::InvalidStringFormat(message) => refusal.0 && message@ == refusal.1,
        ScaffoldError::InvalidArguments(message) => !refusal.0 && message@ == refusal.1,
        _ => false,
    }
}

impl EntryTypeReference {
    pub fn hash_type(&self) -> (hash: FieldType)
        ensures
            hash@ == entry_hash_kind(self.reference_entry_hash),
    {
        if self.reference_entry_hash {
            FieldType::EntryHash
        } else {
            FieldType::ActionHash
        }
    }

    /// The name of a field that refers to this entry type.
    pub fn field_name(&self, cardinality: &Cardinality) -> (name: String)
        requires
            *cardinality == Cardinality::Vector ==> is_ascii_chars(self.entry_type@),
        ensures
            name@ == entry_field_name(self.entry_type@, *cardinality),
    {
        match cardinality {
            Cardinality::Vector => {
                let plural = pluralize(self.entry_type.as_str(), 2);
                to_case(plural.as_str(), CaseStyle::Snake).concat("_hashes")
            },
            _ => to_case(self.entry_type.as_str(), CaseStyle::Snake).concat("_hash"),
        }
    }

    /// The name by which this entry type is displayed.
    pub fn to_string(&self, cardinality: &Cardinality) -> (name: String)
        requires
            is_ascii_chars(self.entry_type@),
        ensures
            name@ == entry_display_name(self.entry_type@, *cardinality),
    {
        match cardinality {
            Cardinality::Vector => pluralize(self.entry_type.as_str(), 2),
            _ => pluralize(self.entry_type.as_str(), 1),
        }
    }

    /// The name of a field that refers to this entry type, or nothing where
    /// a list is asked for and the name of the entry type is not ASCII, which
    /// the pluralizer cannot take.
    pub fn try_field_name(&self, cardinality: &Cardinality) -> (name: Option<String>)
        ensures
            match name {
                Some(text) => (*cardinality == Cardinality::Vector ==> is_ascii_chars(
                    self.entry_type@,
                )) && text@ == entry_field_name(self.entry_type@, *cardinality),
                None => *cardinality == Cardinality::Vector && !is_ascii_chars(self.entry_type@),
            },
    {
        match cardinality {
            Cardinality::Vector => {
                if self.entry_type.is_ascii() {
                    Some(self.field_name(cardinality))
                } else {
                    None
                }
            },
            _ => Some(self.field_name(cardinality)),
        }
    }

    /// The name by which this entry type is displayed, or nothing where its
    /// name is not ASCII, which the pluralizer cannot take.
    pub fn try_to_string(&self, cardinality: &Cardinality) -> (name: Option<String>)
        ensures
            match name {
                Some(text) => is_ascii_chars(self.entry_type@) && text@ == entry_display_name(
                    self.entry_type@,
                    *cardinality,
                ),
                None => !is_ascii_chars(self.entry_type@),
            },
    {
        if self.entry_type.is_ascii() {
            Some(self.to_string(cardinality))
        } else {
            None
        }
    }

    /// Reads a reference of the form `name` or `name:HashKind`. The name must
    /// be in snake case and is kept in Pascal case; the hash kind is one of
    /// the two literals and, left out, that of the action.
    pub fn from_str(s: &str) -> (parsed: Result<EntryTypeReference, ScaffoldError>)
        ensures
            match parsed {
                Ok(reference) => parsed_entry_reference(s@) == Ok::<
                    EntryTypeReferenceView,
                    (bool, Seq<char>),
                >(reference@),
                Err(error) => parsed_entry_reference(s@) matches Err(refusal) && is_refusal(
                    error,
                    refusal,
                ),
            },
    {
        let (name, kind) = leading_segments(s);
        if !is_case(name.as_str(), CaseStyle::Snake) {
            return Err(
                ScaffoldError::InvalidStringFormat(
                    String::from_str("entry type reference must be in snake_case"),
                ),
            );
        }
        let reference_entry_hash = match kind {
            None => false,
            Some(literal) => {
                if literal == String::from_str("EntryHash") {
                    true
                } else if literal == String::from_str("ActionHash") {
                    false
                } else {
                    return Err(
                        ScaffoldError::InvalidArguments(
                            String::from_str(
                                "second argument for reference type must be \"EntryHash\" or \"ActionHash\"",
                            ),
                        ),
                    );
                }
            },
        };
        Ok(
            EntryTypeReference {
                entry_type: to_case(name.as_str(), CaseStyle::Pascal),
                reference_entry_hash,
            },
        )
    }
}

/// The hash type that points at a referenceable.
pub open spec fn hash_kind(target: ReferenceableView) -> FieldKind {
    match target {
        ReferenceableView::Agent { .. } => FieldKind::AgentPubKey,
        ReferenceableView::EntryType(reference) => entry_hash_kind(reference.reference_entry_hash),
    }
}

/// The name by which a referenceable is displayed: as it is written, and
/// pluralized for a list.
pub open spec fn display_form(target: ReferenceableView, cardinality: Cardinality) -> Seq<char> {
    let singular = match target {
        ReferenceableView::Agent { role } => role,
        ReferenceableView::EntryType(reference) => reference.entry_type,
    };
    match cardinality {
        Cardinality::Vector => pluralized(singular, 2),
        _ => singular,
    }
}

/// The name of a field or an argument that holds references to a
/// referenceable.
pub open spec fn field_name_of(target: ReferenceableView, cardinality: Cardinality) -> Seq<char> {
    match target {
        ReferenceableView::Agent { .. } => case_converted(
            CaseStyle::Snake,
            display_form(target, cardinality),
        ),
        ReferenceableView::EntryType(reference) => entry_field_name(
            reference.entry_type,
            cardinality,
        ),
    }
}

/// The name that pluralizing reads: the role or the entry type.
pub open spec fn singular_name(target: ReferenceableView) -> Seq<char> {
    match target {
        ReferenceableView::Agent { role } => role,
        ReferenceableView::EntryType(reference) => reference.entry_type,
    }
}

/// The three texts under which a referenceable is handed to a template.
#[derive(Clone, Debug, PartialEq, Eq)]
pub struct ReferenceableRecord {
    pub name: String,
    pub hash_type: String,
    pub singular_arg: String,
}

impl Referenceable {
    pub fn hash_type(&self) -> (hash: FieldType)
        ensures
            hash@ == hash_kind(self@),
    {
        match self {
            Referenceable::Agent { .. } => FieldType::AgentPubKey,
            Referenceable::EntryType(reference) => reference.hash_type(),
        }
    }

    /// The name of a field or an argument that refers to this.
    pub fn field_name(&self, c: &Cardinality) -> (name: String)
        requires
            *c == Cardinality::Vector ==> is_ascii_chars(singular_name(self@)),
        ensures
            name@ == field_name_of(self@, *c),
    {
        match self {
            Referenceable::Agent { .. } => {
                let shown = self.to_string(c);
                to_case(shown.as_str(), CaseStyle::Snake)
            },
            Referenceable::EntryType(reference) => reference.field_name(c),
        }
    }

    /// The name by which this is displayed.
    pub fn to_string(&self, c: &Cardinality) -> (name: String)
        requires
            *c == Cardinality::Vector ==> is_ascii_chars(singular_name(self@)),
        ensures
            name@ == display_form(self@, *c),
    {
        let singular = match self {
            Referenceable::Agent { role } => role.clone(),
            Referenceable::EntryType(reference) => reference.entry_type.clone(),
        };
        match c {
            Cardinality::Vector => pluralize(singular.as_str(), 2),
            _ => singular,
        }
    }

    /// Tells whether the name that pluralizing reads is ASCII.
    pub fn has_ascii_name(&self) -> (ascii: bool)
        ensures
            ascii == is_ascii_chars(singular_name(self@)),
    {
        match self {
            Referenceable::Agent { role } => role.is_ascii(),
            Referenceable::EntryType(reference) => reference.entry_type.is_ascii(),
        }
    }

    /// The name of a field or an argument that refers to this, or nothing
    /// where a list is asked for and the name is not ASCII, which the
    /// pluralizer cannot take.
    pub fn try_field_name(&self, c: &Cardinality) -> (name: Option<String>)
        ensures
            match name {
                Some(text) => (*c == Cardinality::Vector ==> is_ascii_chars(singular_name(self@)))
                    && text@ == field_name_of(self@, *c),
                None => *c == Cardinality::Vector && !is_ascii_chars(singular_name(self@)),
            },
    {
        match c {
            Cardinality::Vector => {
                if self.has_ascii_name() {
                    Some(self.field_name(c))
                } else {
                    None
                }
            },
            _ => Some(self.field_name(c)),
        }
    }

    /// The name by which this is displayed, or nothing where a list is asked
    /// for and the name is not ASCII, which the pluralizer cannot take.
    pub fn try_to_string(&self, c: &Cardinality) -> (name: Option<String>)
        ensures
            match name {
                Some(text) => (*c == Cardinality::Vector ==> is_ascii_chars(singular_name(self@)))
                    && text@ == display_form(self@, *c),
                None => *c == Cardinality::Vector && !is_ascii_chars(singular_name(self@)),
            },
    {
        match c {
            Cardinality::Vector => {
                if self.has_ascii_name() {
                    Some(self.to_string(c))
                } else {
                    None
                }
            },
            _ => Some(self.to_string(c)),
        }
    }

    /// The record under which this is handed to a template: its singular
    /// display name, the name of its hash type, and its singular field name.
    pub fn record(&self) -> (fields: ReferenceableRecord)
        ensures
            fields.name@ == display_form(self@, Cardinality::Single),
            fields.hash_type@ == display_name(hash_kind(self@)),
            fields.singular_arg@ == field_name_of(self@, Cardinality::Single),
    {
        ReferenceableRecord {
            name: self.to_string(&Cardinality::Single),
            hash_type: self.hash_type().to_string(),
            singular_arg: self.field_name(&Cardinality::Single),
        }
    }

    /// Reads `agent`, `agent:role`, or a reference to an entry type. The first
    /// segment must be in snake case; an agent without a role has the role
    /// `agent`.
    pub fn from_str(s: &str) -> (parsed: Result<Referenceable, ScaffoldError>)
        ensures
            match parsed {
                Ok(target) => parsed_referenceable(s@) == Ok::<ReferenceableView, (bool, Seq<char>)>(
                    target@,
                ),
                Err(error) => parsed_referenceable(s@) matches Err(refusal) && is_refusal(
                    error,
                    refusal,
                ),
            },
    {
        let (name, second) = leading_segments(s);
        if !is_case(name.as_str(), CaseStyle::Snake) {
            return Err(
                ScaffoldError::InvalidStringFormat(
                    String::from_str("referenceable must be in snake_case"),
                ),
            );
        }
        if name == String::from_str("agent") {
            let role = match second {
                None => String::from_str("agent"),
                Some(given) => given,
            };
            Ok(Referenceable::Agent { role })
        } else {
            match EntryTypeReference::from_str(s) {
                Ok(reference) => Ok(Referenceable::EntryType(reference)),
                Err(error) => Err(error),
            }
        }
    }
}

/// A field name is a function of the referenceable and the cardinality, and
/// the name of a list of references to an entry type differs from the name of
/// a single one.
pub proof fn field_names_agree_and_differ(
    first: ReferenceableView,
    second: ReferenceableView,
    cardinality: Cardinality,
    other: Cardinality,
)
    ensures
        first == second ==> field_name_of(first, cardinality) == field_name_of(second, cardinality),
        first is EntryType && cardinality == Cardinality::Vector && other != Cardinality::Vector
            ==> field_name_of(first, cardinality) != field_name_of(first, other),
{
    reveal_strlit("_hashes");
    reveal_strlit("_hash");
    if first is EntryType && cardinality == Cardinality::Vector && other != Cardinality::Vector {
        let plural = field_name_of(first, cardinality);
        let single = field_name_of(first, other);
        assert(plural[plural.len() - 1] == "_hashes"@[6]);
        assert(single[single.len() - 1] == "_hash"@[4]);
    }
}

} // verus!
