use scaffold_core::definitions::{Cardinality, EnumDefinition, FieldType, RustType};
use scaffold_core::entries::{EntryDefinition, FieldDefinition};
use scaffold_core::error::ScaffoldError;
use scaffold_core::example::ExampleType;
use scaffold_core::gitignore::gitignore;
use scaffold_core::references::{EntryTypeReference, Referenceable};
use scaffold_core::reserved_words::check_for_reserved_words;
use scaffold_core::text::{find_segment_end, leading_segments};

fn names(items: &[&str]) -> Vec<String> {
    items.iter().map(|s| s.to_string()).collect()
}

#[test]
fn list_offers_eleven_types_in_order() {
    let shown: Vec<String> = FieldType::list().iter().map(|t| t.to_string()).collect();
    assert_eq!(
        shown,
        names(&[
            "String",
            "bool",
            "u32",
            "i32",
            "f32",
            "Timestamp",
            "ActionHash",
            "EntryHash",
            "DnaHash",
            "AgentPubKey",
            "Enum"
        ])
    );
    assert_eq!(
        FieldType::list()[10],
        FieldType::Enum { label: String::new(), variants: vec![] }
    );
}

#[test]
fn display_and_parse_round_trip() {
    for field_type in FieldType::list() {
        assert_eq!(FieldType::try_from(field_type.to_string()), Ok(field_type));
    }
}

#[test]
fn labelled_enum_parses_back_as_selector() {
    let labelled = FieldType::Enum { label: "Color".to_string(), variants: names(&["red"]) };
    assert_eq!(labelled.to_string(), "Enum");
    assert_eq!(
        FieldType::try_from(labelled.to_string()),
        Ok(FieldType::Enum { label: String::new(), variants: vec![] })
    );
}

#[test]
fn unknown_field_type_is_refused_with_accepted_names() {
    assert_eq!(
        FieldType::try_from("u64".to_string()),
        Err(ScaffoldError::InvalidArguments(
            "Invalid field type: only \"Stringboolu32i32f32TimestampActionHashEntryHashDnaHashAgentPubKeyEnum\" are allowed"
                .to_string()
        ))
    );
    assert!(FieldType::try_from("string".to_string()).is_err());
    assert!(FieldType::try_from(String::new()).is_err());
}

#[test]
fn rust_type_of_primitives_and_enums() {
    assert_eq!(
        FieldType::U32.rust_type(),
        RustType { name: "u32".to_string(), cardinality: Cardinality::Single }
    );
    assert_eq!(FieldType::Timestamp.rust_type().render(), "Timestamp");
    let color = FieldType::Enum { label: "Color".to_string(), variants: names(&["red"]) };
    assert_eq!(color.rust_type().render(), "Color");
}

#[test]
fn rust_type_definition_only_for_enums() {
    assert_eq!(FieldType::Bool.rust_type_definition(), None);
    assert_eq!(FieldType::String.try_rust_type_definition(), Ok(None));
    let status = FieldType::Enum {
        label: "Status".to_string(),
        variants: names(&["in_progress", "done", "not-started"]),
    };
    assert!(status.has_type_definition_variants());
    let expected = EnumDefinition {
        name: "Status".to_string(),
        variants: names(&["InProgress", "Done", "NotStarted"]),
    };
    assert_eq!(status.rust_type_definition(), Some(expected.clone()));
    assert_eq!(status.try_rust_type_definition(), Ok(Some(expected)));
}

#[test]
fn enum_variant_that_is_no_expression_is_refused() {
    let broken = FieldType::Enum { label: "Broken".to_string(), variants: names(&["fine", ""]) };
    assert!(!broken.has_type_definition_variants());
    assert_eq!(
        broken.try_rust_type_definition(),
        Err(ScaffoldError::InvalidArguments("Unable to parse".to_string()))
    );
}

#[test]
fn field_rust_type_follows_cardinality() {
    let single =
        FieldDefinition::new("title".to_string(), FieldType::String, None, Cardinality::Single, None)
            .unwrap();
    assert_eq!(single.rust_type().render(), "String");
    let list =
        FieldDefinition::new("tags".to_string(), FieldType::String, None, Cardinality::Vector, None)
            .unwrap();
    assert_eq!(list.rust_type().render(), "Vec<String>");
    let optional = FieldDefinition::new(
        "author".to_string(),
        FieldType::AgentPubKey,
        Some("SearchAgent".to_string()),
        Cardinality::Option,
        None,
    )
    .unwrap();
    assert_eq!(optional.rust_type().render(), "Option<AgentPubKey>");
    assert_eq!(optional.widget, Some("SearchAgent".to_string()));
}

#[test]
fn reserved_field_name_is_refused() {
    assert_eq!(
        FieldDefinition::new("type".to_string(), FieldType::String, None, Cardinality::Single, None),
        Err(ScaffoldError::InvalidReservedWord("type".to_string()))
    );
    assert_eq!(
        check_for_reserved_words("match"),
        Err(ScaffoldError::InvalidReservedWord("match".to_string()))
    );
    assert_eq!(check_for_reserved_words("matches"), Ok(()));
    assert_eq!(check_for_reserved_words("Type"), Ok(()));
}

#[test]
fn pluralized_field_names() {
    let category =
        EntryTypeReference { entry_type: "category".to_string(), reference_entry_hash: false };
    assert_eq!(category.field_name(&Cardinality::Vector), "categories_hashes");
    assert_eq!(category.field_name(&Cardinality::Single), "category_hash");
    assert_eq!(category.field_name(&Cardinality::Option), "category_hash");
    let post = EntryTypeReference { entry_type: "BlogPost".to_string(), reference_entry_hash: true };
    assert_eq!(post.field_name(&Cardinality::Vector), "blog_posts_hashes");
    assert_eq!(post.field_name(&Cardinality::Single), "blog_post_hash");
}

#[test]
fn entry_reference_display_names() {
    let category =
        EntryTypeReference { entry_type: "category".to_string(), reference_entry_hash: false };
    assert_eq!(category.to_string(&Cardinality::Vector), "categories");
    assert_eq!(category.to_string(&Cardinality::Single), "category");
    let plural =
        EntryTypeReference { entry_type: "comments".to_string(), reference_entry_hash: false };
    assert_eq!(plural.to_string(&Cardinality::Single), "comment");
}

#[test]
fn field_name_is_the_same_on_every_call() {
    let target = Referenceable::EntryType(EntryTypeReference {
        entry_type: "Category".to_string(),
        reference_entry_hash: true,
    });
    let first = target.field_name(&Cardinality::Vector);
    let second = target.clone().field_name(&Cardinality::Vector);
    assert_eq!(first, second);
    assert_ne!(first, target.field_name(&Cardinality::Single));
}

#[test]
fn hash_types_of_references() {
    let by_entry = EntryTypeReference { entry_type: "Post".to_string(), reference_entry_hash: true };
    let by_action =
        EntryTypeReference { entry_type: "Post".to_string(), reference_entry_hash: false };
    assert_eq!(by_entry.hash_type(), FieldType::EntryHash);
    assert_eq!(by_action.hash_type(), FieldType::ActionHash);
    assert_eq!(Referenceable::EntryType(by_entry).hash_type(), FieldType::EntryHash);
    assert_eq!(
        Referenceable::Agent { role: "moderator".to_string() }.hash_type(),
        FieldType::AgentPubKey
    );
}

#[test]
fn parse_entry_type_reference() {
    assert_eq!(
        EntryTypeReference::from_str("my_entry:EntryHash"),
        Ok(EntryTypeReference { entry_type: "MyEntry".to_string(), reference_entry_hash: true })
    );
    assert_eq!(
        EntryTypeReference::from_str("my_entry"),
        Ok(EntryTypeReference { entry_type: "MyEntry".to_string(), reference_entry_hash: false })
    );
    assert_eq!(
        EntryTypeReference::from_str("my_entry:ActionHash"),
        Ok(EntryTypeReference { entry_type: "MyEntry".to_string(), reference_entry_hash: false })
    );
}

#[test]
fn parse_entry_type_reference_refuses_wrong_case() {
    assert_eq!(
        EntryTypeReference::from_str("My_Entry:EntryHash"),
        Err(ScaffoldError::InvalidStringFormat(
            "entry type reference must be in snake_case".to_string()
        ))
    );
}

#[test]
fn parse_entry_type_reference_refuses_unknown_hash_kind() {
    assert_eq!(
        EntryTypeReference::from_str("my_entry:DnaHash"),
        Err(ScaffoldError::InvalidArguments(
            "second argument for reference type must be \"EntryHash\" or \"ActionHash\""
                .to_string()
        ))
    );
    assert!(EntryTypeReference::from_str("my_entry:").is_err());
}

#[test]
fn parse_agent() {
    assert_eq!(
        Referenceable::from_str("agent"),
        Ok(Referenceable::Agent { role: "agent".to_string() })
    );
    assert_eq!(
        Referenceable::from_str("agent:moderator"),
        Ok(Referenceable::Agent { role: "moderator".to_string() })
    );
}

#[test]
fn parse_referenceable_entry_type() {
    assert_eq!(
        Referenceable::from_str("blog_post:EntryHash"),
        Ok(Referenceable::EntryType(EntryTypeReference {
            entry_type: "BlogPost".to_string(),
            reference_entry_hash: true
        }))
    );
    assert_eq!(
        Referenceable::from_str("BlogPost"),
        Err(ScaffoldError::InvalidStringFormat("referenceable must be in snake_case".to_string()))
    );
}

#[test]
fn referenceable_names() {
    let agent = Referenceable::Agent { role: "moderator".to_string() };
    assert_eq!(agent.to_string(&Cardinality::Single), "moderator");
    assert_eq!(agent.to_string(&Cardinality::Vector), "moderators");
    assert_eq!(agent.field_name(&Cardinality::Single), "moderator");
    assert_eq!(agent.field_name(&Cardinality::Vector), "moderators");
    let entry = Referenceable::EntryType(EntryTypeReference {
        entry_type: "Category".to_string(),
        reference_entry_hash: false,
    });
    assert_eq!(entry.to_string(&Cardinality::Single), "Category");
    assert_eq!(entry.to_string(&Cardinality::Vector), "Categories");
    assert_eq!(entry.field_name(&Cardinality::Vector), "categories_hashes");
}

#[test]
fn referenceable_record() {
    let entry = Referenceable::EntryType(EntryTypeReference {
        entry_type: "BlogPost".to_string(),
        reference_entry_hash: true,
    });
    let record = entry.record();
    assert_eq!(record.name, "BlogPost");
    assert_eq!(record.hash_type, "EntryHash");
    assert_eq!(record.singular_arg, "blog_post_hash");
}

#[test]
fn entry_definition_names_and_reference() {
    let entry = EntryDefinition {
        name: "blog_post".to_string(),
        fields: vec![],
        reference_entry_hash: true,
    };
    assert_eq!(entry.snake_case_name(), "blog_post");
    assert_eq!(entry.pascal_case_name(), "BlogPost");
    assert_eq!(entry.camel_case_name(), "blogPost");
    assert_eq!(
        entry.referenceable(),
        Referenceable::EntryType(EntryTypeReference {
            entry_type: "blog_post".to_string(),
            reference_entry_hash: true
        })
    );
    assert_eq!(entry.referenceable().hash_type(), FieldType::EntryHash);
}

#[test]
fn example_types() {
    assert_eq!(ExampleType::from_str("hello-world"), Ok(ExampleType::HelloWorld));
    assert_eq!(ExampleType::from_str("forum"), Ok(ExampleType::Forum));
    assert_eq!(
        ExampleType::from_str("blog"),
        Err(ScaffoldError::InvalidExampleType("blog".to_string(), "hello-world, forum".to_string()))
    );
    assert_eq!(ExampleType::HelloWorld.to_string(), "hello-world");
    assert_eq!(ExampleType::Forum.to_string(), "forum");
    assert_eq!(ExampleType::from_selection(0), ExampleType::HelloWorld);
    assert_eq!(ExampleType::from_selection(1), ExampleType::Forum);
    assert_eq!(ExampleType::from_selection(7), ExampleType::Forum);
}

#[test]
fn gitignore_lists_build_outputs() {
    let text = gitignore();
    assert!(text.starts_with("# editors\n/.idea\n/.vscode\n"));
    assert!(text.contains("\n/target/\n"));
    assert!(text.contains("# npm \n/**/node_modules/\n"));
    assert!(text.ends_with(".hc*\n.running\n.hc\n"));
    assert_eq!(text.lines().count(), 25);
}

#[test]
fn segments_of_a_text() {
    assert_eq!(leading_segments("a:b:c"), ("a".to_string(), Some("b".to_string())));
    assert_eq!(leading_segments("abc"), ("abc".to_string(), None));
    assert_eq!(leading_segments(":x"), (String::new(), Some("x".to_string())));
    assert_eq!(leading_segments("x:"), ("x".to_string(), Some(String::new())));
    assert_eq!(leading_segments(""), (String::new(), None));
    assert_eq!(find_segment_end("ab:cd", 0), 2);
    assert_eq!(find_segment_end("ab:cd", 3), 5);
}

#[test]
fn uncountable_role_has_one_name_for_one_and_many() {
    let flock = Referenceable::Agent { role: "sheep".to_string() };
    assert_eq!(flock.field_name(&Cardinality::Single), "sheep");
    assert_eq!(flock.field_name(&Cardinality::Vector), "sheep");
}

#[test]
fn checked_names_refuse_what_the_pluralizer_cannot_take() {
    let accented =
        EntryTypeReference { entry_type: "Xñese".to_string(), reference_entry_hash: false };
    assert_eq!(accented.try_field_name(&Cardinality::Vector), None);
    assert_eq!(accented.try_to_string(&Cardinality::Single), None);
    assert_eq!(
        accented.try_field_name(&Cardinality::Single),
        Some(accented.field_name(&Cardinality::Single))
    );
    let plain = EntryTypeReference { entry_type: "category".to_string(), reference_entry_hash: false };
    assert_eq!(plain.try_field_name(&Cardinality::Vector), Some("categories_hashes".to_string()));
    assert_eq!(plain.try_to_string(&Cardinality::Vector), Some("categories".to_string()));
    let agent = Referenceable::Agent { role: "Xñese".to_string() };
    assert!(!agent.has_ascii_name());
    assert_eq!(agent.try_field_name(&Cardinality::Vector), None);
    assert_eq!(agent.try_to_string(&Cardinality::Vector), None);
    assert_eq!(agent.try_to_string(&Cardinality::Single), Some("Xñese".to_string()));
    let moderator = Referenceable::Agent { role: "moderator".to_string() };
    assert!(moderator.has_ascii_name());
    assert_eq!(moderator.try_field_name(&Cardinality::Vector), Some("moderators".to_string()));
    assert_eq!(moderator.try_to_string(&Cardinality::Vector), Some("moderators".to_string()));
}

#[test]
fn overlong_or_deeply_nested_variant_is_refused_unparsed() {
    let nested = format!("{}x{}", "(".repeat(100_000), ")".repeat(100_000));
    let deep = FieldType::Enum { label: "Deep".to_string(), variants: vec![nested] };
    assert!(!deep.has_type_definition_variants());
    assert_eq!(
        deep.try_rust_type_definition(),
        Err(ScaffoldError::InvalidArguments("Unable to parse".to_string()))
    );
    let at_limit = FieldType::Enum { label: "Long".to_string(), variants: vec!["a".repeat(64)] };
    assert!(at_limit.has_type_definition_variants());
    let over_limit = FieldType::Enum { label: "Long".to_string(), variants: vec!["a".repeat(65)] };
    assert!(!over_limit.has_type_definition_variants());
}
