//! The validation engine: optional fields, exhaustive element iteration,
//! failure collection without short-circuiting, and the two scenario
//! records from the library's description.

use koruma::engine::{validate_record, FieldPlan, RecordPlan, Rule, Value};
use koruma::traits::ValidationError;

fn plain_field(rules: Vec<Rule>) -> FieldPlan {
    FieldPlan {
        field_rules: rules,
        full_rules: vec![],
        elem_rules: vec![],
        optional: false,
        elem_optional: false,
    }
}

#[test]
fn scenario_name_and_age_record() {
    // record {name, age}: name length in [1, 50], age in [0, 120]
    let plan = RecordPlan {
        fields: vec![
            plain_field(vec![Rule::LenRange { min: 1, max: 50 }]),
            plain_field(vec![Rule::IntRange { min: 0, max: 120 }]),
        ],
    };
    // {name: "", age: 200}: both slots populated, aggregate non-empty
    let bad = vec![Value::Text(String::new()), Value::Int(200)];
    let err = validate_record(&plan, &bad).unwrap_err();
    assert!(!err.is_empty());
    assert_eq!(
        err.field(0).slots[0],
        Some(Rule::LenRange { min: 1, max: 50 })
    );
    assert_eq!(
        err.field(1).slots[0],
        Some(Rule::IntRange { min: 0, max: 120 })
    );
    // the failing values are the record's own: length 0 and value 200
    assert!(matches!(&bad[0], Value::Text(s) if s.is_empty()));
    assert!(matches!(&bad[1], Value::Int(200)));

    // {name: "Alice", age: 30}: pass, aggregate empty
    let good = vec![Value::Text("Alice".to_string()), Value::Int(30)];
    assert!(validate_record(&plan, &good).is_ok());
}

#[test]
fn absent_optional_field_yields_zero_failures() {
    // whatever checks are configured, the absent value passes untouched
    let plan = RecordPlan {
        fields: vec![FieldPlan {
            field_rules: vec![
                Rule::IntRange { min: 5, max: 6 },
                Rule::Even,
                Rule::NonEmpty,
            ],
            full_rules: vec![],
            elem_rules: vec![],
            optional: true,
            elem_optional: false,
        }],
    };
    let absent = vec![Value::Null];
    assert!(validate_record(&plan, &absent).is_ok());
}

#[test]
fn present_optional_field_runs_every_validator() {
    let plan = RecordPlan {
        fields: vec![FieldPlan {
            field_rules: vec![Rule::IntRange { min: 0, max: 10 }, Rule::Even],
            full_rules: vec![],
            elem_rules: vec![],
            optional: true,
            elem_optional: false,
        }],
    };
    let present = vec![Value::Int(11)];
    let err = validate_record(&plan, &present).unwrap_err();
    // both checks ran: the range check failed, the evenness check failed
    assert_eq!(err.field(0).slots.len(), 2);
    assert_eq!(err.field(0).slots[0], Some(Rule::IntRange { min: 0, max: 10 }));
    assert_eq!(err.field(0).slots[1], Some(Rule::Even));
}

#[test]
fn collection_iteration_is_exhaustive_and_indexed() {
    let plan = RecordPlan {
        fields: vec![FieldPlan {
            field_rules: vec![],
            full_rules: vec![],
            elem_rules: vec![Rule::IntRange { min: 0, max: 100 }, Rule::Even],
            optional: false,
            elem_optional: false,
        }],
    };
    // indices 0 and 3 fail once, index 2 fails both checks
    let values = vec![Value::List(vec![
        Value::Int(102),
        Value::Int(4),
        Value::Int(-3),
        Value::Int(7),
    ])];
    let err = validate_record(&plan, &values).unwrap_err();
    let entries = &err.field(0).element_errors;
    assert_eq!(entries.len(), 3);
    assert_eq!(entries[0].0, 0);
    assert_eq!(entries[1].0, 2);
    assert_eq!(entries[2].0, 3);
    // each entry pairs the index with all failing checks of that element
    assert_eq!(entries[0].1.slots[0], Some(Rule::IntRange { min: 0, max: 100 }));
    assert_eq!(entries[0].1.slots[1], None);
    assert_eq!(entries[1].1.slots[0], Some(Rule::IntRange { min: 0, max: 100 }));
    assert_eq!(entries[1].1.slots[1], Some(Rule::Even));
    assert_eq!(entries[2].1.slots[0], None);
    assert_eq!(entries[2].1.slots[1], Some(Rule::Even));
}

#[test]
fn absent_elements_are_skipped_not_errors() {
    let plan = RecordPlan {
        fields: vec![FieldPlan {
            field_rules: vec![],
            full_rules: vec![],
            elem_rules: vec![Rule::Even],
            optional: false,
            elem_optional: true,
        }],
    };
    let values = vec![Value::List(vec![Value::Null, Value::Int(3), Value::Null])];
    let err = validate_record(&plan, &values).unwrap_err();
    let entries = &err.field(0).element_errors;
    assert_eq!(entries.len(), 1);
    assert_eq!(entries[0].0, 1);
}

#[test]
fn empty_collection_passes() {
    let plan = RecordPlan {
        fields: vec![FieldPlan {
            field_rules: vec![],
            full_rules: vec![],
            elem_rules: vec![Rule::Even],
            optional: false,
            elem_optional: false,
        }],
    };
    let values = vec![Value::List(vec![])];
    assert!(validate_record(&plan, &values).is_ok());
}

#[test]
fn two_failing_fields_are_both_collected() {
    let plan = RecordPlan {
        fields: vec![
            plain_field(vec![Rule::NonEmpty]),
            plain_field(vec![Rule::IntRange { min: 0, max: 1 }]),
            plain_field(vec![Rule::Even]),
        ],
    };
    let values = vec![
        Value::Text(String::new()),
        Value::Int(0),
        Value::Int(3),
    ];
    let err = validate_record(&plan, &values).unwrap_err();
    assert!(!err.is_empty());
    assert!(err.field(0).has_errors());
    assert!(!err.field(1).has_errors());
    assert!(err.field(2).has_errors());
    assert_eq!(err.len(), 3);
}

#[test]
fn length_rule_counts_text_and_list_lengths() {
    let plan = RecordPlan {
        fields: vec![
            plain_field(vec![Rule::LenRange { min: 2, max: 3 }]),
            plain_field(vec![Rule::LenRange { min: 2, max: 3 }]),
        ],
    };
    let good = vec![
        Value::Text("abc".to_string()),
        Value::List(vec![Value::Int(1), Value::Int(2)]),
    ];
    assert!(validate_record(&plan, &good).is_ok());
    let bad = vec![
        Value::Text("a".to_string()),
        Value::List(vec![]),
    ];
    assert!(validate_record(&plan, &bad).is_err());
}

#[test]
fn full_optional_checks_see_absence_themselves() {
    // the full-optional escape hatch: a presence check runs on the value
    // as it stands, absent or not, while unwrapped checks are skipped
    let plan = RecordPlan {
        fields: vec![FieldPlan {
            field_rules: vec![Rule::Even],
            full_rules: vec![Rule::Present],
            elem_rules: vec![],
            optional: true,
            elem_optional: false,
        }],
    };
    let absent = vec![Value::Null];
    let err = validate_record(&plan, &absent).unwrap_err();
    assert_eq!(err.field(0).slots[0], None); // the unwrapped check did not run
    assert_eq!(err.field(0).full_slots[0], Some(Rule::Present));

    let present = vec![Value::Int(2)];
    assert!(validate_record(&plan, &present).is_ok());

    let present_odd = vec![Value::Int(3)];
    let err = validate_record(&plan, &present_odd).unwrap_err();
    assert_eq!(err.field(0).slots[0], Some(Rule::Even));
    assert_eq!(err.field(0).full_slots[0], None);
}

#[test]
fn length_rule_counts_text_bytes() {
    let plan = RecordPlan {
        fields: vec![plain_field(vec![Rule::LenRange { min: 2, max: 2 }])],
    };
    // one character, two bytes: length checks measure bytes
    let two_bytes = vec![Value::Text("\u{00e9}".to_string())];
    assert!(validate_record(&plan, &two_bytes).is_ok());
}
