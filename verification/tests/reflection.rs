use office_fever::reflection::{DynamicValue, DynamicallyModifiableType, DynamicallyModifiableTypeKind};
use office_fever::scripting::{entities_to_mutate, read_bool_fields, toggled, BoolField};
use office_fever::entity_index::TargetnameEntityIndex;

fn ty(option: bool, kind: DynamicallyModifiableTypeKind) -> DynamicallyModifiableType {
    DynamicallyModifiableType::new(option, kind)
}

#[test]
fn flags_parse_only_true_and_false() {
    let t = ty(false, DynamicallyModifiableTypeKind::Bool);
    assert_eq!(t.parse_string("true"), Some(DynamicValue::Flag(true)));
    assert_eq!(t.parse_string("false"), Some(DynamicValue::Flag(false)));
    assert_eq!(t.parse_string("True"), None);
    assert_eq!(t.parse_string(""), None);
    assert_eq!(t.parse_string("1"), None);
}

#[test]
fn optional_fields_take_empty_text_as_none() {
    assert_eq!(
        ty(true, DynamicallyModifiableTypeKind::String).parse_string(""),
        Some(DynamicValue::OptionalText(None))
    );
    assert_eq!(
        ty(true, DynamicallyModifiableTypeKind::Bool).parse_string(""),
        Some(DynamicValue::OptionalFlag(None))
    );
    assert_eq!(
        ty(true, DynamicallyModifiableTypeKind::F32).parse_string(""),
        Some(DynamicValue::OptionalNumberText(None))
    );
}

#[test]
fn optional_fields_with_text() {
    assert_eq!(
        ty(true, DynamicallyModifiableTypeKind::String).parse_string("hi"),
        Some(DynamicValue::OptionalText(Some("hi".to_string())))
    );
    assert_eq!(
        ty(true, DynamicallyModifiableTypeKind::Bool).parse_string("true"),
        Some(DynamicValue::OptionalFlag(Some(true)))
    );
    assert_eq!(ty(true, DynamicallyModifiableTypeKind::Bool).parse_string("yes"), None);
    assert_eq!(
        ty(true, DynamicallyModifiableTypeKind::F32).parse_string("1.5"),
        Some(DynamicValue::OptionalNumberText(Some("1.5".to_string())))
    );
}

#[test]
fn plain_text_and_number_fields() {
    assert_eq!(
        ty(false, DynamicallyModifiableTypeKind::String).parse_string(""),
        Some(DynamicValue::Text(String::new()))
    );
    assert_eq!(
        ty(false, DynamicallyModifiableTypeKind::F32).parse_string("2"),
        Some(DynamicValue::NumberText("2".to_string()))
    );
    let t = ty(true, DynamicallyModifiableTypeKind::F32);
    assert!(t.is_option());
    assert_eq!(t.kind(), DynamicallyModifiableTypeKind::F32);
}

#[test]
fn toggling_flags() {
    assert_eq!(toggled(BoolField::Plain(true)), Some(BoolField::Plain(false)));
    assert_eq!(toggled(BoolField::Optional(Some(false))), Some(BoolField::Optional(Some(true))));
    assert_eq!(toggled(BoolField::Optional(None)), None);
    assert_eq!(toggled(BoolField::Other), None);
    let once = toggled(BoolField::Plain(false)).unwrap();
    assert_eq!(toggled(once), Some(BoolField::Plain(false)));
}

#[test]
fn reading_flags_is_any_true() {
    assert!(!read_bool_fields(&vec![]));
    assert!(!read_bool_fields(&vec![BoolField::Plain(false), BoolField::Optional(None), BoolField::Other]));
    assert!(read_bool_fields(&vec![BoolField::Plain(false), BoolField::Optional(Some(true))]));
    assert!(read_bool_fields(&vec![BoolField::Plain(true)]));
}

#[test]
fn field_commands_stop_at_first_entity_without_component() {
    let mut index = TargetnameEntityIndex::new();
    index.register_entity(1, "door");
    index.register_entity(2, "door");
    index.register_entity(3, "door");
    assert_eq!(entities_to_mutate(&index, "door", &vec![1, 2, 3]), vec![1, 2, 3]);
    assert_eq!(entities_to_mutate(&index, "door", &vec![1, 3]), vec![1]);
    assert!(entities_to_mutate(&index, "door", &vec![2, 3]).is_empty());
    assert!(entities_to_mutate(&index, "none", &vec![1]).is_empty());
}
