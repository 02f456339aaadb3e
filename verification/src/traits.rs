//! The uniform contract between records and validators: a validator checks
//! one value and reports pass or fail; an error type can say whether it is
//! empty; a validator builder can receive the value under validation.

use vstd::prelude::*;

use crate::KorumaResult;

verus! {

/// Trait for types that can validate a value of type `T`.
///
/// Implementors return `Ok(())` if validation passes, or `Err(())` if it
/// fails; the details of the failure live in the validator value itself.
pub trait Validate<T> {
    fn validate(&self, value: &T) -> KorumaResult;
}

/// Trait for validation error values: `is_empty` is the canonical success
/// test, true exactly when no check failed.
pub trait ValidationError {
    fn is_empty(&self) -> bool;

    fn has_errors(&self) -> bool {
        !self.is_empty()
    }
}

/// Trait for validator builders that can receive the value being validated
/// through a uniform method, whatever the underlying field is called.
pub trait BuilderWithValue<T> {
    fn with_value(self, value: T) -> Self;
}

} // verus!
