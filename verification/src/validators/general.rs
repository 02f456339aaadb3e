//! General validators: required presence of an optional value.

use vstd::prelude::*;

use crate::traits::{BuilderWithValue, Validate};
use crate::KorumaResult;

verus! {

/// Validates that an optional value is present. This is the one validator
/// meant to be used with the full-optional type parameter, so that it can
/// see presence or absence itself.
#[derive(Debug, Clone)]
pub struct RequiredValidation<T> {
    /// The value being validated (stored for error context).
    pub actual: Option<T>,
}

impl<T> RequiredValidation<T> {
    /// Starts building a presence validator.
    pub fn builder() -> (r: RequiredValidationBuilder<T>)
        ensures
            r.actual is None,
    {
        RequiredValidationBuilder { actual: None }
    }
}

/// Builder for [`RequiredValidation`].
pub struct RequiredValidationBuilder<T> {
    pub actual: Option<Option<T>>,
}

impl<T> RequiredValidationBuilder<T> {
    /// Sets the value under validation.
    pub fn actual(self, actual: Option<T>) -> (r: Self)
        ensures
            r.actual == Some(actual),
    {
        RequiredValidationBuilder { actual: Some(actual) }
    }

    /// Sets the value under validation through the uniform name.
    pub fn with_value(self, value: Option<T>) -> (r: Self)
        ensures
            r.actual == Some(value),
    {
        self.actual(value)
    }

    /// Finishes the builder; the value must have been set.
    pub fn build(self) -> (r: RequiredValidation<T>)
        requires
            self.actual is Some,
        ensures
            r.actual == self.actual->Some_0,
    {
        match self {
            RequiredValidationBuilder { actual: Some(actual) } => RequiredValidation { actual },
            _ => unreached(),
        }
    }
}

impl<T> BuilderWithValue<Option<T>> for RequiredValidationBuilder<T> {
    fn with_value(self, value: Option<T>) -> Self {
        self.actual(value)
    }
}

impl<T> Validate<Option<T>> for RequiredValidation<T> {
    /// Passes exactly when the optional value is present.
    fn validate(&self, value: &Option<T>) -> (r: KorumaResult)
        ensures
            r is Ok <==> value is Some,
    {
        if value.is_some() {
            Ok(())
        } else {
            Err(())
        }
    }
}

} // verus!
