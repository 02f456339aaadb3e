//! Invocation and annotation parsing, field aggregation, and the type
//! helpers, exercised over annotation text.

use koruma::ast::{KorumaAttr, ParseFieldResult, TypeExpr, ValidatorAttr};
use koruma::codegen::{expand_koruma, FieldInput, GenerateError, RecordInput};
use koruma::field::parse_field;
use koruma::parser::{parse_koruma_attr, parse_validator_attr};
use koruma::resolve::{option_inner_type, vec_inner_type};

fn invocation(text: &str) -> ValidatorAttr {
    parse_validator_attr(text).expect("invocation should parse")
}

fn annotation(text: &str) -> KorumaAttr {
    parse_koruma_attr(text).expect("annotation should parse")
}

fn named(name: &str, args: Vec<TypeExpr>) -> TypeExpr {
    TypeExpr::Named {
        qualifier: String::new(),
        name: name.to_string(),
        args,
    }
}

fn simple_name(ty: &TypeExpr) -> &str {
    match ty {
        TypeExpr::Named { name, .. } => name,
        TypeExpr::Placeholder => "_",
    }
}

#[test]
fn test_validator_attr_parse_simple() {
    let attr = invocation("RangeValidation");
    assert_eq!(attr.name(), "RangeValidation");
    assert!(!attr.infer_type);
    assert!(attr.args.is_empty());
}

#[test]
fn test_validator_attr_parse_with_args() {
    let attr = invocation("RangeValidation(min = 0, max = 100)");
    assert_eq!(attr.name(), "RangeValidation");
    assert!(!attr.infer_type);
    assert_eq!(attr.args.len(), 2);
    assert_eq!(attr.args[0].name, "min");
    assert_eq!(attr.args[1].name, "max");
}

#[test]
fn test_validator_attr_parse_generic() {
    // Turbofish syntax: ::<_>
    let attr = invocation("GenericRange::<_>(min = 0.0, max = 1.0)");
    assert_eq!(attr.name(), "GenericRange");
    assert!(attr.infer_type);
    assert_eq!(attr.args.len(), 2);
}

#[test]
fn test_koruma_attr_parse_skip() {
    let attr = annotation("skip");
    assert!(attr.is_skip);
    assert!(attr.field_validators.is_empty());
    assert!(attr.element_validators.is_empty());
}

#[test]
fn test_koruma_attr_parse_each() {
    let attr = annotation("each(RangeValidation(min = 0, max = 100))");
    assert!(!attr.is_skip);
    assert!(attr.field_validators.is_empty());
    assert_eq!(attr.element_validators.len(), 1);
}

#[test]
fn test_koruma_attr_parse_multiple_validators() {
    // Turbofish syntax: ::<_>
    let attr = annotation("ValidatorA(x = 1), ValidatorB, ValidatorC::<_>(y = 2)");
    assert!(!attr.is_skip);
    assert_eq!(attr.field_validators.len(), 3);
    assert!(attr.element_validators.is_empty());
    assert!(!attr.field_validators[0].infer_type);
    assert!(!attr.field_validators[1].infer_type);
    assert!(attr.field_validators[2].infer_type);
}

#[test]
fn test_koruma_attr_parse_combined_field_and_each() {
    // Combined: field validator + each(element validators) with turbofish
    let attr = annotation(
        "LenValidator(min = 1, max = 10), each(RangeValidation::<_>(min = 0, max = 100))",
    );
    assert!(!attr.is_skip);
    assert_eq!(attr.field_validators.len(), 1);
    assert_eq!(attr.field_validators[0].name(), "LenValidator");
    assert_eq!(attr.element_validators.len(), 1);
    assert_eq!(attr.element_validators[0].name(), "RangeValidation");
    assert!(attr.element_validators[0].infer_type);
}

#[test]
fn test_koruma_attr_parse_each_then_field() {
    // each() can come before field validators too
    let attr = annotation("each(RangeValidation(min = 0, max = 100)), LenValidator(min = 1)");
    assert!(!attr.is_skip);
    assert_eq!(attr.field_validators.len(), 1);
    assert_eq!(attr.element_validators.len(), 1);
}

#[test]
fn test_validator_attr_parse_nested_generic() {
    // Nested generics with turbofish: ::<Option<_>>
    let attr = invocation("RequiredValidation::<Option<_>>");
    assert_eq!(attr.name(), "RequiredValidation");
    assert!(!attr.infer_type);
    let explicit_ty = attr.explicit_type.expect("an explicit type");
    assert_eq!(simple_name(&explicit_ty), "Option");
}

#[test]
fn test_validator_attr_parse_nested_generic_concrete() {
    // Nested generics with concrete types: ::<Vec<String>>
    let attr = invocation("SomeValidator::<Vec<String>>");
    assert_eq!(attr.name(), "SomeValidator");
    assert!(!attr.infer_type);
    let explicit_ty = attr.explicit_type.expect("an explicit type");
    match &explicit_ty {
        TypeExpr::Named { name, args, .. } => {
            assert_eq!(name, "Vec");
            assert_eq!(simple_name(&args[0]), "String");
        }
        TypeExpr::Placeholder => panic!("a named type was expected"),
    }
}

#[test]
fn test_validator_attr_parse_deeply_nested_generic() {
    // Deeply nested generics: ::<Option<Vec<_>>>
    let attr = invocation("DeepValidator::<Option<Vec<_>>>");
    assert_eq!(attr.name(), "DeepValidator");
    assert!(!attr.infer_type);
    assert!(attr.explicit_type.is_some());
}

#[test]
fn test_validator_attr_parse_option_infer_type() {
    // ::<Option<_>> syntax for full Option type (no unwrapping)
    let attr = invocation("RequiredValidation::<Option<_>>");
    assert_eq!(attr.name(), "RequiredValidation");
    assert!(!attr.infer_type);
    let explicit_ty = attr.explicit_type.expect("an explicit type");
    assert_eq!(simple_name(&explicit_ty), "Option");
}

#[test]
fn test_validator_attr_parse_old_syntax_error() {
    // Old <_> syntax without :: should give a helpful error
    let result = parse_validator_attr("Validator<_>");
    assert!(result.is_err(), "expected error for old syntax without ::");
    assert!(matches!(
        result.unwrap_err().kind,
        koruma::ast::SyntaxErrorKind::LegacyGenericSyntax
    ));
}

#[test]
fn test_parse_field_direct_single_validator() {
    let r = parse_field(
        &"age".to_string(),
        &TypeExpr::simple("i32".to_string()),
        &vec!["RangeValidation(min = 0, max = 100)".to_string()],
    );
    let info = r.valid().expect("a validated field");
    assert_eq!(info.name, "age");
    assert_eq!(info.field_validators.len(), 1);
    assert_eq!(info.field_validators[0].name(), "RangeValidation");
    assert!(info.element_validators.is_empty());
    assert!(!info.is_nested);
    assert!(!info.is_newtype);
}

#[test]
fn test_parse_field_direct_multiple_validators() {
    let r = parse_field(
        &"value".to_string(),
        &TypeExpr::simple("i32".to_string()),
        &vec!["RangeValidation(min = 0, max = 100), EvenValidation".to_string()],
    );
    let info = r.valid().expect("a validated field");
    assert_eq!(info.field_validators.len(), 2);
    assert_eq!(info.field_validators[0].name(), "RangeValidation");
    assert_eq!(info.field_validators[1].name(), "EvenValidation");
}

#[test]
fn test_parse_field_direct_generic_validator() {
    let r = parse_field(
        &"score".to_string(),
        &TypeExpr::simple("f64".to_string()),
        &vec!["GenericRange::<_>(min = 0.0, max = 1.0)".to_string()],
    );
    let info = r.valid().expect("a validated field");
    assert!(info.field_validators[0].uses_type_inference());
    assert_eq!(info.field_validators[0].args[0].value, "0.0");
    assert_eq!(info.field_validators[0].args[1].value, "1.0");
}

#[test]
fn test_parse_field_direct_each() {
    let r = parse_field(
        &"scores".to_string(),
        &named("Vec", vec![TypeExpr::simple("i32".to_string())]),
        &vec!["each(RangeValidation(min = 0, max = 100))".to_string()],
    );
    let info = r.valid().expect("a validated field");
    assert!(info.field_validators.is_empty());
    assert_eq!(info.element_validators.len(), 1);
    assert!(info.has_element_validators());
}

#[test]
fn test_parse_field_direct_nested() {
    let r = parse_field(
        &"inner".to_string(),
        &TypeExpr::simple("InnerStruct".to_string()),
        &vec!["nested".to_string()],
    );
    let info = r.valid().expect("a validated field");
    assert!(info.is_nested());
    assert!(!info.is_newtype());
}

#[test]
fn test_parse_field_direct_newtype() {
    let r = parse_field(
        &"index".to_string(),
        &TypeExpr::simple("CommonVariableIndex".to_string()),
        &vec!["newtype".to_string()],
    );
    let info = r.valid().expect("a validated field");
    assert!(info.is_newtype());
    assert!(!info.is_nested());
}

#[test]
fn validators_beside_a_modifier_are_discarded() {
    // nested / newtype imply empty validator lists: the field's declared
    // type supplies its own validate instead
    let r = parse_field(
        &"inner".to_string(),
        &TypeExpr::simple("InnerStruct".to_string()),
        &vec!["NonEmptyValidation::<_>".to_string(), "nested".to_string()],
    );
    let info = r.valid().expect("a delegating field");
    assert!(info.is_nested());
    assert!(info.field_validators.is_empty());
    assert!(info.element_validators.is_empty());
}

#[test]
fn test_parse_field_direct_skip() {
    let r = parse_field(
        &"internal".to_string(),
        &TypeExpr::simple("u64".to_string()),
        &vec!["skip".to_string()],
    );
    assert!(matches!(r, ParseFieldResult::Skip));
}

#[test]
fn test_koruma_error_on_duplicate_validator_same_attr() {
    let input = RecordInput {
        name: "DuplicateValidatorSameAttr".to_string(),
        fields: vec![FieldInput {
            name: "value".to_string(),
            ty: TypeExpr::simple("i32".to_string()),
            occurrences: vec![
                "RangeValidation(min = 0, max = 100), RangeValidation(min = 10, max = 50)"
                    .to_string(),
            ],
        }],
        options_text: None,
    };
    let err = expand_koruma(&input).unwrap_err();
    assert!(matches!(err, GenerateError::Duplicate { .. }));
}

#[test]
fn test_koruma_error_on_duplicate_validator_separate_attrs() {
    let input = RecordInput {
        name: "DuplicateValidatorSeparateAttrs".to_string(),
        fields: vec![FieldInput {
            name: "value".to_string(),
            ty: TypeExpr::simple("i32".to_string()),
            occurrences: vec![
                "RangeValidation(min = 0, max = 100)".to_string(),
                "RangeValidation(min = 10, max = 50)".to_string(),
            ],
        }],
        options_text: None,
    };
    let err = expand_koruma(&input).unwrap_err();
    assert!(matches!(err, GenerateError::Duplicate { .. }));
}

#[test]
fn test_koruma_error_on_duplicate_element_validator() {
    let input = RecordInput {
        name: "DuplicateElementValidator".to_string(),
        fields: vec![FieldInput {
            name: "values".to_string(),
            ty: named("Vec", vec![TypeExpr::simple("i32".to_string())]),
            occurrences: vec![
                "each(RangeValidation(min = 0, max = 100))".to_string(),
                "each(RangeValidation(min = 10, max = 50))".to_string(),
            ],
        }],
        options_text: None,
    };
    let err = expand_koruma(&input).unwrap_err();
    match err {
        GenerateError::Duplicate { name, field } => {
            assert_eq!(name, "RangeValidation");
            assert_eq!(field, "values");
        }
        other => panic!("expected the duplicate error, got {:?}", other),
    }
}

#[test]
fn test_option_inner_type_extracts_inner() {
    let ty = named("Option", vec![TypeExpr::simple("i32".to_string())]);
    let inner = option_inner_type(&ty);
    assert!(inner.is_some());
    assert_eq!(simple_name(inner.unwrap()), "i32");
}

#[test]
fn test_option_inner_type_nested() {
    let ty = named(
        "Option",
        vec![named("Vec", vec![TypeExpr::simple("String".to_string())])],
    );
    let inner = option_inner_type(&ty);
    assert!(inner.is_some());
    assert_eq!(simple_name(inner.unwrap()), "Vec");
}

#[test]
fn test_option_inner_type_returns_none_for_non_option() {
    assert!(option_inner_type(&TypeExpr::simple("i32".to_string())).is_none());
    assert!(
        option_inner_type(&named("Vec", vec![TypeExpr::simple("i32".to_string())])).is_none()
    );
    assert!(option_inner_type(&TypeExpr::simple("String".to_string())).is_none());
}

#[test]
fn test_vec_inner_type_extracts_inner() {
    let ty = named("Vec", vec![TypeExpr::simple("f64".to_string())]);
    let inner = vec_inner_type(&ty);
    assert!(inner.is_some());
    assert_eq!(simple_name(inner.unwrap()), "f64");
}

#[test]
fn test_vec_inner_type_complex() {
    let ty = named(
        "Vec",
        vec![named("Option", vec![TypeExpr::simple("String".to_string())])],
    );
    let inner = vec_inner_type(&ty);
    assert!(inner.is_some());
    assert_eq!(simple_name(inner.unwrap()), "Option");
}

#[test]
fn test_vec_inner_type_returns_none_for_non_vec() {
    assert!(vec_inner_type(&TypeExpr::simple("i32".to_string())).is_none());
    assert!(
        vec_inner_type(&named("Option", vec![TypeExpr::simple("i32".to_string())])).is_none()
    );
    assert!(vec_inner_type(&named(
        "HashMap",
        vec![
            TypeExpr::simple("String".to_string()),
            TypeExpr::simple("i32".to_string())
        ]
    ))
    .is_none());
}
