//! A worked single-field newtype record: the aggregate error exposes the
//! one field's error transparently, with no field accessor in between.

use vstd::prelude::*;

use crate::records::rules::StringLengthValidation;
use crate::traits::{BuilderWithValue, Validate, ValidationError};
use crate::validators::string::sp_bytes;

verus! {

/// A newtype-style record wrapping one length-checked code; its error
/// surface is exposed transparently rather than through a field
/// accessor.
#[derive(Debug, Clone)]
pub struct AccessCode {
    pub value: String,
}

/// Aggregate validation error for [`AccessCode`]: because the record is
/// a newtype wrapper, the single field's slots are reachable directly.
#[derive(Clone, Debug)]
pub struct AccessCodeKorumaValidationError {
    pub string_length_validation: Option<StringLengthValidation>,
}

impl AccessCodeKorumaValidationError {
    /// The failed length validator, with no field-name indirection.
    pub fn string_length_validation(&self) -> (r: Option<&StringLengthValidation>)
        ensures
            r is Some <==> self.string_length_validation is Some,
            r matches Some(v) ==> *v == self.string_length_validation->Some_0,
    {
        self.string_length_validation.as_ref()
    }

    /// Returns all failed validators, with no field-name indirection.
    pub fn all(&self) -> (r: Vec<StringLengthValidation>)
        ensures
            r.len() == (if self.string_length_validation is Some {
                1int
            } else {
                0int
            }),
    {
        let mut result: Vec<StringLengthValidation> = Vec::new();
        if let Some(v) = &self.string_length_validation {
            result.push(v.clone());
        }
        result
    }
}

impl ValidationError for AccessCodeKorumaValidationError {
    /// True exactly when the one check did not fail.
    fn is_empty(&self) -> (r: bool)
        ensures
            r == (self.string_length_validation is None),
    {
        self.string_length_validation.is_none()
    }
}

impl AccessCode {
    /// Whether the wrapped code passes its check.
    pub open spec fn spec_valid(&self) -> bool {
        4 <= sp_bytes(self.value@).len() <= 8
    }

    /// Validates the wrapped code's byte length against `4 ..= 8`; the
    /// error exposes the failing validator directly.
    pub fn validate(&self) -> (r: Result<(), AccessCodeKorumaValidationError>)
        ensures
            r is Ok <==> self.spec_valid(),
            r matches Err(e) ==> {
                &&& e.string_length_validation is Some
                &&& (e.string_length_validation matches Some(v) ==> v.min == 4usize && v.max
                    == 8usize && v.input@ == self.value@)
            },
    {
        let mut error = AccessCodeKorumaValidationError { string_length_validation: None };
        let mut has_error = false;
        let validator = StringLengthValidation::builder().min(4).max(8).with_value(
            self.value.clone(),
        ).build();
        if validator.validate(&self.value).is_err() {
            error.string_length_validation = Some(validator);
            has_error = true;
        }
        if has_error {
            Err(error)
        } else {
            Ok(())
        }
    }
}

} // verus!
