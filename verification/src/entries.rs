use vstd::prelude::*;
use vstd::string::*;
use crate::definitions::{written_name, Cardinality, FieldType, RustType};
use crate::error::ScaffoldError;
use crate::naming::{case_converted, to_case, CaseStyle};
use crate::references::{EntryTypeReference, EntryTypeReferenceView, Referenceable, ReferenceableView};
use crate::reserved_words::{check_for_reserved_words, is_reserved};

verus! {

/// A field of an entry type.
#[derive(Clone, Debug, PartialEq, Eq)]
pub struct FieldDefinition {
    pub field_name: String,
    pub field_type: FieldType,
    pub widget: Option<String>,
    pub cardinality: Cardinality,
    pub linked_from: Option<Referenceable>,
}

impl FieldDefinition {
    /// The name of the field is no reserved word.
    pub open spec fn wf(&self) -> bool {
        !is_reserved(self.field_name@)
    }

    /// Makes a field, unless its name is a reserved word.
    pub fn new(
        field_name: String,
        field_type: FieldType,
        widget: Option<String>,
        cardinality: Cardinality,
        linked_from: Option<Referenceable>,
    ) -> (made: Result<FieldDefinition, ScaffoldError>)
        ensures
            match made {
                Ok(field) => field.wf() && field == (FieldDefinition {
                    field_name,
                    field_type,
                    widget,
                    cardinality,
                    linked_from,
                }),
                Err(ScaffoldError::InvalidReservedWord(word)) => is_reserved(field_name@) && word@
                    == field_name@,
                Err(_) => false,
            },
    {
        match check_for_reserved_words(field_name.as_str()) {
            Ok(_) => Ok(FieldDefinition { field_name, field_type, widget, cardinality, linked_from }),
            Err(error) => Err(error),
        }
    }

    /// The type under which the field is stored: the field type, bare, in a
    /// list, or optional, as the cardinality says.
    pub fn rust_type(&self) -> (stored: RustType)
        ensures
            stored.name@ == written_name(self.field_type@),
            stored.cardinality == self.cardinality,
    {
        let bare = self.field_type.rust_type();
        RustType { name: bare.name, cardinality: self.cardinality }
    }
}

/// An entry type: its name, its fields in order, and the kind of hash by
/// which other entries refer to it.
#[derive(Clone, Debug, PartialEq, Eq)]
pub struct EntryDefinition {
    pub name: String,
    pub fields: Vec<FieldDefinition>,
    pub reference_entry_hash: bool,
}

impl EntryDefinition {
    /// Every field of the entry type is well formed.
    pub open spec fn wf(&self) -> bool {
        forall|i: int| 0 <= i < self.fields@.len() ==> (#[trigger] self.fields@[i]).wf()
    }

    /// The entry type as something that can be referred to, with the hash
    /// kind that the definition holds.
    pub fn referenceable(&self) -> (target: Referenceable)
        ensures
            target@ == ReferenceableView::EntryType(
                EntryTypeReferenceView {
                    entry_type: self.name@,
                    reference_entry_hash: self.reference_entry_hash,
                },
            ),
    {
        Referenceable::EntryType(
            EntryTypeReference {
                entry_type: self.name.clone(),
                reference_entry_hash: self.reference_entry_hash,
            },
        )
    }

    pub fn snake_case_name(&self) -> (name: String)
        ensures
            name@ == case_converted(CaseStyle::Snake, self.name@),
    {
        to_case(self.name.as_str(), CaseStyle::Snake)
    }

    pub fn pascal_case_name(&self) -> (name: String)
        ensures
            name@ == case_converted(CaseStyle::Pascal, self.name@),
    {
        to_case(self.name.as_str(), CaseStyle::Pascal)
    }

    pub fn camel_case_name(&self) -> (name: String)
        ensures
            name@ == case_converted(CaseStyle::Camel, self.name@),
    {
        to_case(self.name.as_str(), CaseStyle::Camel)
    }
}

/// Which operations beside create and read are generated for an entry type.
#[derive(Clone, Copy, Debug, PartialEq, Eq, Structural)]
pub struct Crud {
    pub update: bool,
    pub delete: bool,
}

/// What the templates of an entry type are rendered with.
#[derive(Clone, Debug, PartialEq, Eq)]
pub struct ScaffoldEntryTypeData {
    pub app_name: String,
    pub dna_role_name: String,
    pub coordinator_zome_name: String,
    pub entry_type: EntryDefinition,
    pub crud: Crud,
    pub link_from_original_to_each_update: bool,
}

/// What the templates of a link type are rendered with. A link without a
/// target entry type points at something that is no entry.
#[derive(Clone, Debug, PartialEq, Eq)]
pub struct ScaffoldLinkTypeData {
    pub dna_role_id: String,
    pub coordinator_zome_name: String,
    pub from_entry_type: String,
    pub to_entry_type: Option<String>,
}

} // verus!
