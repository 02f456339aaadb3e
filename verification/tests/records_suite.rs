//! The remaining worked records: the validating constructor and the
//! transparent newtype error surface.

use koruma::records::nesting::Registration;
use koruma::records::users::User;
use koruma::records::wrap::AccessCode;
use koruma::traits::ValidationError;

#[test]
fn try_new_returns_the_record_when_valid() {
    let user = User::try_new(7, "ada".to_string()).expect("a valid record");
    assert_eq!(user.id, 7);
    assert_eq!(user.username, "ada");
}

#[test]
fn try_new_returns_the_full_error_when_invalid() {
    let err = User::try_new(0, String::new()).unwrap_err();
    assert!(err.id().positive_validation().is_some());
    assert!(err.username().non_empty_validation().is_some());
    assert!(err.has_errors());
}

#[test]
fn user_validate_collects_every_failure() {
    let user = User {
        id: -4,
        username: String::new(),
    };
    let err = user.validate().unwrap_err();
    assert!(!err.is_empty());
    assert!(err.id().positive_validation().is_some());
    assert!(err.username().non_empty_validation().is_some());
}

#[test]
fn newtype_error_is_transparent() {
    let code = AccessCode {
        value: "xy".to_string(),
    };
    let err = code.validate().unwrap_err();
    // the inner error is reachable with no field-name indirection
    let failed = err.string_length_validation().expect("the failing check");
    assert_eq!(failed.input, "xy");
    assert_eq!(failed.min, 4);
    assert_eq!(failed.max, 8);
    assert_eq!(err.all().len(), 1);
    assert!(err.has_errors());
}

#[test]
fn newtype_passes_when_the_inner_check_passes() {
    let code = AccessCode {
        value: "secret".to_string(),
    };
    assert!(code.validate().is_ok());
}

fn code(text: &str) -> AccessCode {
    AccessCode {
        value: text.to_string(),
    }
}

#[test]
fn nested_fields_delegate_and_store_the_inner_error_verbatim() {
    let registration = Registration {
        code: code("xy"),
        backup: Some(code("longenough")),
        badge: code("secret"),
    };
    let err = registration.validate().unwrap_err();
    // the inner value's own error, stored as the field's member
    let inner = err.code().expect("the delegated failure");
    let failed = inner.string_length_validation().expect("the inner check");
    assert_eq!(failed.input, "xy");
    // the inner error equals what the inner validate returns itself
    let direct = registration.code.validate().unwrap_err();
    assert_eq!(
        format!("{:?}", inner),
        format!("{:?}", &direct)
    );
    // the other delegations ran too: backup failed, badge passed
    assert!(err.backup().is_some());
    assert!(err.badge().inner().is_none());
}

#[test]
fn absent_optional_nested_field_is_skipped() {
    let registration = Registration {
        code: code("secret"),
        backup: None,
        badge: code("secret"),
    };
    assert!(registration.validate().is_ok());
}

#[test]
fn newtype_field_error_sits_behind_inner() {
    let registration = Registration {
        code: code("secret"),
        backup: None,
        badge: code("no"),
    };
    let err = registration.validate().unwrap_err();
    assert!(err.code().is_none());
    let inner = err.badge().inner().expect("the wrapped failure");
    assert_eq!(inner.string_length_validation().unwrap().input, "no");
    assert!(err.has_errors());
}

#[test]
fn string_length_measures_bytes() {
    // four characters, eight bytes: the byte length decides
    let code_value = "\u{00e9}\u{00e9}\u{00e9}\u{00e9}";
    assert_eq!(code_value.len(), 8);
    assert!(code(code_value).validate().is_ok());
    // five characters, ten bytes: over the byte bound although the
    // character count is within it
    let long_value = "\u{00e9}\u{00e9}\u{00e9}\u{00e9}\u{00e9}";
    assert!(code(long_value).validate().is_err());
}
