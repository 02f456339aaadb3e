//! The code generator: the emitted module model, its generated names,
//! and every generation-time failure.

use koruma::codegen::{
    expand_koruma, ArgValueModel, FieldInput, FieldKind, GenerateError, RecordInput,
};
use koruma::ast::TypeExpr;

fn field(name: &str, ty: TypeExpr, occurrences: &[&str]) -> FieldInput {
    FieldInput {
        name: name.to_string(),
        ty,
        occurrences: occurrences.iter().map(|s| s.to_string()).collect(),
    }
}

fn named(name: &str, args: Vec<TypeExpr>) -> TypeExpr {
    TypeExpr::Named {
        qualifier: String::new(),
        name: name.to_string(),
        args,
    }
}

#[test]
fn generates_the_item_module() {
    let input = RecordInput {
        name: "Item".to_string(),
        fields: vec![
            field(
                "age",
                TypeExpr::simple("i32".to_string()),
                &["NumberRangeValidation(min = 0, max = 100)"],
            ),
            field(
                "name",
                TypeExpr::simple("String".to_string()),
                &["StringLengthValidation(min = 1, max = 67)"],
            ),
            field("internal_id", TypeExpr::simple("u64".to_string()), &[]),
        ],
        options_text: None,
    };
    let m = expand_koruma(&input).expect("generation succeeds");
    assert_eq!(m.record_name, "Item");
    assert_eq!(m.error_name, "ItemKorumaValidationError");
    assert!(!m.has_try_new);
    assert!(!m.newtype_wrapper);
    // one field surface per annotated field, in declaration order
    assert_eq!(m.fields.len(), 2);
    assert_eq!(m.fields[0].field_name, "age");
    assert_eq!(m.fields[0].error_name, "ItemAgeKorumaValidationError");
    assert_eq!(m.fields[0].enum_name, "ItemAgeKorumaValidator");
    assert_eq!(m.fields[0].slots.len(), 1);
    assert_eq!(m.fields[0].slots[0].member, "number_range_validation");
    assert!(m.fields[0].slots[0].ty.is_none());
    assert_eq!(m.fields[0].kind, FieldKind::Plain);
    assert!(!m.fields[0].optional);
    assert!(m.fields[0].element.is_none());
    assert_eq!(m.fields[1].error_name, "ItemNameKorumaValidationError");
}

#[test]
fn resolves_inference_and_detects_optionality() {
    let input = RecordInput {
        name: "Profile".to_string(),
        fields: vec![field(
            "bio",
            named("Option", vec![TypeExpr::simple("String".to_string())]),
            &["LenValidation::<_>(min = 1, max = 200)"],
        )],
        options_text: None,
    };
    let m = expand_koruma(&input).expect("generation succeeds");
    let f = &m.fields[0];
    assert!(f.optional);
    // `::<_>` resolves to the declared type with one Option level removed
    match f.slots[0].ty.as_ref().expect("an instantiated validator") {
        TypeExpr::Named { name, .. } => assert_eq!(name, "String"),
        TypeExpr::Placeholder => panic!("resolved, not a placeholder"),
    }
}

#[test]
fn element_surface_for_collections() {
    let input = RecordInput {
        name: "Order".to_string(),
        fields: vec![field(
            "scores",
            named("Vec", vec![TypeExpr::simple("u32".to_string())]),
            &["each(RangeValidation::<_>(min = 0, max = 100))"],
        )],
        options_text: None,
    };
    let m = expand_koruma(&input).expect("generation succeeds");
    let f = &m.fields[0];
    assert!(f.slots.is_empty());
    let element = f.element.as_ref().expect("an element surface");
    assert_eq!(
        element.error_name,
        "OrderScoresElementKorumaValidationError"
    );
    assert_eq!(element.enum_name, "OrderScoresElementKorumaValidator");
    assert_eq!(element.slots.len(), 1);
    // the element slot resolves `::<_>` to the element type
    match element.slots[0].ty.as_ref().expect("instantiated") {
        TypeExpr::Named { name, .. } => assert_eq!(name, "u32"),
        TypeExpr::Placeholder => panic!("resolved, not a placeholder"),
    }
}

#[test]
fn partial_inference_in_element_mode() {
    let input = RecordInput {
        name: "Board".to_string(),
        fields: vec![field(
            "cells",
            named("Vec", vec![TypeExpr::simple("Cell".to_string())]),
            &["each(SomeValidation::<Wrapper<_>>)"],
        )],
        options_text: None,
    };
    let m = expand_koruma(&input).expect("generation succeeds");
    let element = m.fields[0].element.as_ref().unwrap();
    match element.slots[0].ty.as_ref().expect("instantiated") {
        TypeExpr::Named { name, args, .. } => {
            assert_eq!(name, "Wrapper");
            match &args[0] {
                TypeExpr::Named { name, .. } => assert_eq!(name, "Cell"),
                TypeExpr::Placeholder => panic!("substituted, not a placeholder"),
            }
        }
        TypeExpr::Placeholder => panic!("resolved, not a placeholder"),
    }
}

#[test]
fn bare_identifier_arguments_become_sibling_accesses() {
    let input = RecordInput {
        name: "Account".to_string(),
        fields: vec![
            field("password", TypeExpr::simple("String".to_string()), &[]),
            field(
                "confirm",
                TypeExpr::simple("String".to_string()),
                &["MatchesValidation::<_>(other = password)"],
            ),
        ],
        options_text: None,
    };
    let m = expand_koruma(&input).expect("generation succeeds");
    let slot = &m.fields[0].slots[0];
    assert_eq!(slot.args.len(), 1);
    assert_eq!(slot.args[0].0, "other");
    match &slot.args[0].1 {
        ArgValueModel::SelfField(name) => assert_eq!(name, "password"),
        ArgValueModel::Verbatim(_) => panic!("a bare identifier names a sibling field"),
    }
}

#[test]
fn full_optional_mode_is_recorded_per_slot() {
    let input = RecordInput {
        name: "Signup".to_string(),
        fields: vec![field(
            "nickname",
            named("Option", vec![TypeExpr::simple("String".to_string())]),
            &["RequiredValidation::<Option<_>>, NonEmptyValidation::<_>"],
        )],
        options_text: None,
    };
    let m = expand_koruma(&input).expect("generation succeeds");
    let slots = &m.fields[0].slots;
    assert_eq!(slots.len(), 2);
    // the escape hatch sees the full optional value, the other check the
    // unwrapped one
    assert!(slots[0].wants_full_type);
    assert!(!slots[1].wants_full_type);
}

#[test]
fn nested_and_newtype_fields_delegate() {
    let input = RecordInput {
        name: "Outer".to_string(),
        fields: vec![
            field("inner", TypeExpr::simple("Inner".to_string()), &["nested"]),
            field("code", TypeExpr::simple("Code".to_string()), &["newtype"]),
        ],
        options_text: None,
    };
    let m = expand_koruma(&input).expect("generation succeeds");
    assert_eq!(m.fields[0].kind, FieldKind::Nested);
    assert_eq!(m.fields[1].kind, FieldKind::Newtype);
    // delegating fields synthesize no ad hoc slots
    assert!(m.fields[0].slots.is_empty());
    assert!(m.fields[1].slots.is_empty());
}

#[test]
fn try_new_is_requested_by_the_option() {
    let input = RecordInput {
        name: "User".to_string(),
        fields: vec![field(
            "id",
            TypeExpr::simple("i32".to_string()),
            &["PositiveValidation::<_>"],
        )],
        options_text: Some("try_new".to_string()),
    };
    let m = expand_koruma(&input).expect("generation succeeds");
    assert!(m.has_try_new);
    assert!(!m.newtype_wrapper);
}

#[test]
fn newtype_with_one_annotated_field_succeeds() {
    let input = RecordInput {
        name: "AccessCode".to_string(),
        fields: vec![field(
            "value",
            TypeExpr::simple("String".to_string()),
            &["StringLengthValidation(min = 4, max = 8)"],
        )],
        options_text: Some("newtype".to_string()),
    };
    let m = expand_koruma(&input).expect("generation succeeds");
    assert!(m.newtype_wrapper);
    assert_eq!(m.fields.len(), 1);
}

#[test]
fn newtype_with_two_annotated_fields_is_rejected() {
    let input = RecordInput {
        name: "Pair".to_string(),
        fields: vec![
            field(
                "a",
                TypeExpr::simple("String".to_string()),
                &["NonEmptyValidation::<_>"],
            ),
            field(
                "b",
                TypeExpr::simple("String".to_string()),
                &["NonEmptyValidation::<_>"],
            ),
        ],
        options_text: Some("newtype".to_string()),
    };
    match expand_koruma(&input).unwrap_err() {
        GenerateError::NewtypeCardinality { found } => assert_eq!(found, 2),
        other => panic!("expected the cardinality error, got {:?}", other),
    }
}

#[test]
fn record_without_fields_is_rejected() {
    let input = RecordInput {
        name: "Empty".to_string(),
        fields: vec![],
        options_text: None,
    };
    assert!(matches!(
        expand_koruma(&input).unwrap_err(),
        GenerateError::NoFields
    ));
}

#[test]
fn unknown_struct_option_aborts_generation() {
    let input = RecordInput {
        name: "Odd".to_string(),
        fields: vec![field(
            "x",
            TypeExpr::simple("i32".to_string()),
            &["PositiveValidation::<_>"],
        )],
        options_text: Some("const_new".to_string()),
    };
    assert!(matches!(
        expand_koruma(&input).unwrap_err(),
        GenerateError::UnknownOption { .. }
    ));
}

#[test]
fn field_errors_abort_generation() {
    let input = RecordInput {
        name: "Broken".to_string(),
        fields: vec![field(
            "x",
            TypeExpr::simple("i32".to_string()),
            &["RangeValidation<_>(min = 1)"],
        )],
        options_text: None,
    };
    assert!(matches!(
        expand_koruma(&input).unwrap_err(),
        GenerateError::Syntax { .. }
    ));
    let input = RecordInput {
        name: "Doubled".to_string(),
        fields: vec![field(
            "x",
            TypeExpr::simple("i32".to_string()),
            &["EvenNumberValidation, EvenNumberValidation"],
        )],
        options_text: None,
    };
    match expand_koruma(&input).unwrap_err() {
        GenerateError::Duplicate { name, field } => {
            assert_eq!(name, "EvenNumberValidation");
            assert_eq!(field, "x");
        }
        other => panic!("expected the duplicate error, got {:?}", other),
    }
}
