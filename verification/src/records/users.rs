//! A worked record with a validating constructor.

use vstd::prelude::*;

use crate::traits::{BuilderWithValue, Validate, ValidationError};
use crate::validators::collection::NonEmptyValidation;
use crate::validators::numeric::PositiveValidation;
use crate::validators::string::sp_bytes;

verus! {

/// A record with a positive identifier and a non-empty username; its
/// validating constructor builds the record, runs `validate`, and hands
/// back either the record or the full error.
#[derive(Debug, Clone)]
pub struct User {
    pub id: i32,
    pub username: String,
}

/// Per-field validation error for [`User::id`].
#[derive(Clone, Debug)]
pub struct UserIdKorumaValidationError {
    pub positive_validation: Option<PositiveValidation<i32>>,
}

impl UserIdKorumaValidationError {
    /// The failed positivity validator, if the check failed.
    pub fn positive_validation(&self) -> (r: Option<&PositiveValidation<i32>>)
        ensures
            r is Some <==> self.positive_validation is Some,
    {
        self.positive_validation.as_ref()
    }

    /// True when the positivity check did not fail.
    pub fn is_empty(&self) -> (r: bool)
        ensures
            r == (self.positive_validation is None),
    {
        self.positive_validation.is_none()
    }
}

/// Per-field validation error for [`User::username`].
#[derive(Clone, Debug)]
pub struct UserUsernameKorumaValidationError {
    pub non_empty_validation: Option<NonEmptyValidation<String>>,
}

impl UserUsernameKorumaValidationError {
    /// The failed non-emptiness validator, if the check failed.
    pub fn non_empty_validation(&self) -> (r: Option<&NonEmptyValidation<String>>)
        ensures
            r is Some <==> self.non_empty_validation is Some,
    {
        self.non_empty_validation.as_ref()
    }

    /// True when the non-emptiness check did not fail.
    pub fn is_empty(&self) -> (r: bool)
        ensures
            r == (self.non_empty_validation is None),
    {
        self.non_empty_validation.is_none()
    }
}

/// Aggregate validation error for [`User`].
#[derive(Clone, Debug)]
pub struct UserKorumaValidationError {
    pub id: UserIdKorumaValidationError,
    pub username: UserUsernameKorumaValidationError,
}

impl UserKorumaValidationError {
    /// The `id` field's error.
    pub fn id(&self) -> (r: &UserIdKorumaValidationError)
        ensures
            r == self.id,
    {
        &self.id
    }

    /// The `username` field's error.
    pub fn username(&self) -> (r: &UserUsernameKorumaValidationError)
        ensures
            r == self.username,
    {
        &self.username
    }
}

impl ValidationError for UserKorumaValidationError {
    /// True exactly when no check of any field failed.
    fn is_empty(&self) -> (r: bool)
        ensures
            r == (self.id.positive_validation is None
                && self.username.non_empty_validation is None),
    {
        self.id.is_empty() && self.username.is_empty()
    }
}

impl User {
    /// Whether every check of this record passes.
    pub open spec fn spec_valid(&self) -> bool {
        &&& self.id > 0
        &&& sp_bytes(self.username@).len() > 0
    }

    /// Validates all fields, collecting every failure: the id must be
    /// strictly positive and the username non-empty.
    pub fn validate(&self) -> (r: Result<(), UserKorumaValidationError>)
        ensures
            r is Ok <==> self.spec_valid(),
            r matches Err(e) ==> {
                &&& (e.id.positive_validation is Some <==> !(self.id > 0))
                &&& (e.username.non_empty_validation is Some <==> !(sp_bytes(self.username@).len() > 0))
            },
    {
        let mut error = UserKorumaValidationError {
            id: UserIdKorumaValidationError { positive_validation: None },
            username: UserUsernameKorumaValidationError { non_empty_validation: None },
        };
        let mut has_error = false;
        let validator = PositiveValidation::<i32>::builder().with_value(
            self.id,
        ).build_positive();
        if validator.validate(&self.id).is_err() {
            error.id.positive_validation = Some(validator);
            has_error = true;
        }
        let validator = NonEmptyValidation::<String>::builder().actual(
            self.username.clone(),
        ).build();
        if validator.validate(&self.username).is_err() {
            error.username.non_empty_validation = Some(validator);
            has_error = true;
        }
        if has_error {
            Err(error)
        } else {
            Ok(())
        }
    }

    /// Builds the record from its field values and validates it:
    /// construction never partially fails independently of validation.
    pub fn try_new(id: i32, username: String) -> (r: Result<User, UserKorumaValidationError>)
        ensures
            r matches Ok(u) ==> u.id == id && u.username@ == username@ && u.spec_valid(),
            r is Err <==> !(id > 0 && sp_bytes(username@).len() > 0),
    {
        let instance = User { id, username };
        match instance.validate() {
            Ok(()) => Ok(instance),
            Err(e) => Err(e),
        }
    }
}

} // verus!
