//! The annotation grammar: every form parses, the legacy form is
//! refused, duplicates in one slot are refused while the two slots stay
//! independent, and parsing is deterministic across runs.

use koruma::ast::{KorumaAttr, ParseFieldResult, SyntaxErrorKind, TypeExpr};
use koruma::field::parse_field;
use koruma::parser::{parse_koruma_attr, parse_struct_options, parse_validator_attr};

fn plain_type(name: &str) -> TypeExpr {
    TypeExpr::simple(name.to_string())
}

fn attr_of(text: &str) -> KorumaAttr {
    parse_koruma_attr(text).expect("annotation should parse")
}

#[test]
fn parses_plain_validator() {
    let attr = attr_of("NonEmptyValidation");
    assert_eq!(attr.field_validators.len(), 1);
    assert_eq!(attr.element_validators.len(), 0);
    assert_eq!(attr.field_validators[0].name(), "NonEmptyValidation");
    assert!(!attr.field_validators[0].uses_type_inference());
    assert!(!attr.field_validators[0].has_explicit_type());
    assert!(!attr.field_validators[0].has_args());
}

#[test]
fn parses_validator_with_arguments() {
    let attr = attr_of("RangeValidation(min = 0, max = 100)");
    let v = &attr.field_validators[0];
    assert!(v.has_args());
    assert_eq!(v.args.len(), 2);
    assert_eq!(v.args[0].name, "min");
    assert_eq!(v.args[0].value, "0");
    assert_eq!(v.args[1].name, "max");
    assert_eq!(v.args[1].value, "100");
}

#[test]
fn parses_full_inference() {
    let attr = attr_of("LenValidation::<_>(min = 1, max = 5)");
    let v = &attr.field_validators[0];
    assert!(v.uses_type_inference());
    assert!(!v.has_explicit_type());
}

#[test]
fn parses_explicit_type() {
    let attr = attr_of("RangeValidation::<i64>(min = 0, max = 9)");
    let v = &attr.field_validators[0];
    assert!(!v.uses_type_inference());
    match v.explicit_type.as_ref().expect("explicit type") {
        TypeExpr::Named { name, args, .. } => {
            assert_eq!(name, "i64");
            assert!(args.is_empty());
        }
        TypeExpr::Placeholder => panic!("not a placeholder"),
    }
}

#[test]
fn parses_nested_generic_substitution_form() {
    let attr = attr_of("SomeValidation::<Wrapper<_>>");
    let v = &attr.field_validators[0];
    match v.explicit_type.as_ref().expect("explicit type") {
        TypeExpr::Named { name, args, .. } => {
            assert_eq!(name, "Wrapper");
            assert_eq!(args.len(), 1);
            assert!(matches!(args[0], TypeExpr::Placeholder));
        }
        TypeExpr::Placeholder => panic!("not a placeholder"),
    }
}

#[test]
fn parses_each_block() {
    let attr = attr_of("each(RangeValidation::<_>(min = 0, max = 100))");
    assert_eq!(attr.field_validators.len(), 0);
    assert_eq!(attr.element_validators.len(), 1);
    assert_eq!(attr.element_validators[0].name(), "RangeValidation");
}

#[test]
fn parses_combined_field_and_element() {
    let attr = attr_of("LenValidation::<_>(min = 1, max = 5), each(NonEmptyValidation::<_>)");
    assert_eq!(attr.field_validators.len(), 1);
    assert_eq!(attr.element_validators.len(), 1);
    assert_eq!(attr.field_validators[0].name(), "LenValidation");
    assert_eq!(attr.element_validators[0].name(), "NonEmptyValidation");
}

#[test]
fn parses_skip_modifier() {
    let attr = attr_of("skip");
    assert!(attr.is_skip);
    assert!(attr.is_modifier());
    assert!(!attr.has_validators());
}

#[test]
fn parses_nested_modifier() {
    let attr = attr_of("nested");
    assert!(attr.is_nested);
    assert!(!attr.is_skip);
}

#[test]
fn parses_newtype_modifier() {
    let attr = attr_of("newtype");
    assert!(attr.is_newtype);
}

#[test]
fn parses_dotted_path() {
    let attr = attr_of("validators::numeric::RangeValidation(min = 1, max = 2)");
    let v = &attr.field_validators[0];
    assert_eq!(v.validator.len(), 3);
    assert_eq!(v.name(), "RangeValidation");
}

#[test]
fn legacy_generic_syntax_is_refused() {
    let err = parse_koruma_attr("LenValidation<_>(min = 1)").unwrap_err();
    assert!(matches!(err.kind, SyntaxErrorKind::LegacyGenericSyntax));
}

#[test]
fn trailing_junk_is_refused() {
    let err = parse_koruma_attr("LenValidation ::").unwrap_err();
    assert!(matches!(err.kind, SyntaxErrorKind::TrailingInput));
}

#[test]
fn single_invocation_parses_alone() {
    let v = parse_validator_attr("RangeValidation::<_>(min = 0)").expect("invocation");
    assert_eq!(v.name(), "RangeValidation");
    assert!(v.uses_type_inference());
}

#[test]
fn struct_options_parse() {
    let o = parse_struct_options("try_new, newtype").expect("options");
    assert!(o.try_new);
    assert!(o.newtype);
    let d = parse_struct_options("").expect("empty options");
    assert!(!d.try_new);
    assert!(!d.newtype);
}

#[test]
fn unknown_struct_option_names_the_offender() {
    let err = parse_struct_options("try_new, frobnicate").unwrap_err();
    match err.kind {
        SyntaxErrorKind::UnknownStructOption { name } => assert_eq!(name, "frobnicate"),
        _ => panic!("expected the unknown-option error"),
    }
}

#[test]
fn duplicate_in_field_slot_is_refused() {
    let occurrences = vec!["LenValidation::<_>(min = 1), LenValidation::<_>(max = 2)".to_string()];
    let r = parse_field(
        &"items".to_string(),
        &plain_type("String"),
        &occurrences,
    );
    match r {
        ParseFieldResult::Error(e) => {
            let text = format!("{:?}", e);
            assert!(text.contains("LenValidation"));
            assert!(text.contains("items"));
        }
        _ => panic!("expected a duplicate error"),
    }
}

#[test]
fn duplicate_across_occurrences_is_refused() {
    let occurrences = vec![
        "NonEmptyValidation::<_>".to_string(),
        "NonEmptyValidation::<_>".to_string(),
    ];
    let r = parse_field(&"name".to_string(), &plain_type("String"), &occurrences);
    assert!(r.is_error());
}

#[test]
fn same_name_in_both_slots_succeeds() {
    let occurrences =
        vec!["NonEmptyValidation::<_>, each(NonEmptyValidation::<_>)".to_string()];
    let r = parse_field(&"tags".to_string(), &plain_type("Vec"), &occurrences);
    let info = r.valid().expect("slots are independent");
    assert_eq!(info.field_validators.len(), 1);
    assert_eq!(info.element_validators.len(), 1);
}

#[test]
fn skip_wins_over_validators() {
    let occurrences = vec![
        "NonEmptyValidation::<_>".to_string(),
        "skip".to_string(),
    ];
    let r = parse_field(&"name".to_string(), &plain_type("String"), &occurrences);
    assert!(r.is_skip());
}

#[test]
fn unannotated_field_is_skipped() {
    let occurrences: Vec<String> = vec![];
    let r = parse_field(&"plain".to_string(), &plain_type("u32"), &occurrences);
    assert!(r.is_skip());
}

#[test]
fn parsing_is_deterministic_across_runs() {
    let text = "LenValidation::<_>(min = 1, max = 5), each(RangeValidation::<Wrapper<_>>(min = 0))";
    let first = attr_of(text);
    let second = attr_of(text);
    assert_eq!(first.field_validators.len(), second.field_validators.len());
    assert_eq!(
        first.element_validators.len(),
        second.element_validators.len()
    );
    assert_eq!(
        first.field_validators[0].name(),
        second.field_validators[0].name()
    );
    assert_eq!(
        format!("{:?}", first.element_validators[0]),
        format!("{:?}", second.element_validators[0])
    );
}

#[test]
fn non_ascii_annotation_is_refused() {
    let err = parse_koruma_attr("V\u{00e9}rification").unwrap_err();
    assert!(matches!(err.kind, SyntaxErrorKind::NonAscii));
}

#[test]
fn argument_expressions_pass_through_verbatim() {
    let attr = attr_of("MatchesValidation::<_>(other = password)");
    let v = &attr.field_validators[0];
    assert_eq!(v.args[0].name, "other");
    assert_eq!(v.args[0].value, "password");
}

#[test]
fn string_argument_with_comma_stays_whole() {
    let attr = attr_of("ContainsValidation::<_>(substring = \"a,b\".to_string())");
    let v = &attr.field_validators[0];
    assert_eq!(v.args.len(), 1);
    assert_eq!(v.args[0].value, "\"a,b\".to_string()");
}
