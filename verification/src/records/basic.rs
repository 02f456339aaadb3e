//! Worked records with plain, multi-validator and optional fields.

use vstd::prelude::*;

use crate::records::rules::{EvenNumberValidation, NumberRangeValidation, StringLengthValidation};
use crate::traits::{BuilderWithValue, Validate, ValidationError};
use crate::validators::string::sp_bytes;

verus! {

/// A record with one range-checked and one length-checked field; the
/// third field carries no annotation and is never checked.
#[derive(Debug, Clone)]
pub struct Item {
    pub age: i32,
    pub name: String,
    pub internal_id: u64,
}

/// Enum of all possible validators for the `age` field.
#[derive(Clone, Copy, Debug)]
pub enum ItemAgeKorumaValidator {
    NumberRangeValidation(NumberRangeValidation),
}

/// Per-field validation error for `Item::age`.
#[derive(Clone, Copy, Debug)]
pub struct ItemAgeKorumaValidationError {
    pub number_range_validation: Option<NumberRangeValidation>,
}

impl ItemAgeKorumaValidationError {
    /// The failed range validator, if the range check failed.
    pub fn number_range_validation(&self) -> (r: Option<&NumberRangeValidation>)
        ensures
            r is Some <==> self.number_range_validation is Some,
            r matches Some(v) ==> *v == self.number_range_validation->Some_0,
    {
        self.number_range_validation.as_ref()
    }

    /// Returns all failed validators of this field.
    pub fn all(&self) -> (r: Vec<ItemAgeKorumaValidator>)
        ensures
            r.len() == (if self.number_range_validation is Some {
                1int
            } else {
                0int
            }),
    {
        let mut result: Vec<ItemAgeKorumaValidator> = Vec::new();
        if let Some(v) = &self.number_range_validation {
            result.push(ItemAgeKorumaValidator::NumberRangeValidation(*v));
        }
        result
    }

    /// True when the range check did not fail.
    pub fn is_empty(&self) -> (r: bool)
        ensures
            r == (self.number_range_validation is None),
    {
        self.number_range_validation.is_none()
    }

    /// True when the range check failed.
    pub fn has_errors(&self) -> (r: bool)
        ensures
            r == (self.number_range_validation is Some),
    {
        !self.is_empty()
    }
}

/// Enum of all possible validators for the `name` field.
#[derive(Clone, Debug)]
pub enum ItemNameKorumaValidator {
    StringLengthValidation(StringLengthValidation),
}

/// Per-field validation error for `Item::name`.
#[derive(Clone, Debug)]
pub struct ItemNameKorumaValidationError {
    pub string_length_validation: Option<StringLengthValidation>,
}

impl ItemNameKorumaValidationError {
    /// The failed length validator, if the length check failed.
    pub fn string_length_validation(&self) -> (r: Option<&StringLengthValidation>)
        ensures
            r is Some <==> self.string_length_validation is Some,
            r matches Some(v) ==> *v == self.string_length_validation->Some_0,
    {
        self.string_length_validation.as_ref()
    }

    /// Returns all failed validators of this field.
    pub fn all(&self) -> (r: Vec<ItemNameKorumaValidator>)
        ensures
            r.len() == (if self.string_length_validation is Some {
                1int
            } else {
                0int
            }),
    {
        let mut result: Vec<ItemNameKorumaValidator> = Vec::new();
        if let Some(v) = &self.string_length_validation {
            result.push(ItemNameKorumaValidator::StringLengthValidation(v.clone()));
        }
        result
    }

    /// True when the length check did not fail.
    pub fn is_empty(&self) -> (r: bool)
        ensures
            r == (self.string_length_validation is None),
    {
        self.string_length_validation.is_none()
    }

    /// True when the length check failed.
    pub fn has_errors(&self) -> (r: bool)
        ensures
            r == (self.string_length_validation is Some),
    {
        !self.is_empty()
    }
}

/// Aggregate validation error for [`Item`], one member per annotated
/// field.
#[derive(Clone, Debug)]
pub struct ItemKorumaValidationError {
    pub age: ItemAgeKorumaValidationError,
    pub name: ItemNameKorumaValidationError,
}

impl ItemKorumaValidationError {
    /// The `age` field's error.
    pub fn age(&self) -> (r: &ItemAgeKorumaValidationError)
        ensures
            r == self.age,
    {
        &self.age
    }

    /// The `name` field's error.
    pub fn name(&self) -> (r: &ItemNameKorumaValidationError)
        ensures
            r == self.name,
    {
        &self.name
    }
}

impl ValidationError for ItemKorumaValidationError {
    /// True exactly when no check of any field failed.
    fn is_empty(&self) -> (r: bool)
        ensures
            r == (self.age.number_range_validation is None
                && self.name.string_length_validation is None),
    {
        self.age.is_empty() && self.name.is_empty()
    }
}

impl Item {
    /// Whether every check of this record passes.
    pub open spec fn spec_valid(&self) -> bool {
        &&& 0 <= self.age <= 100
        &&& 1 <= sp_bytes(self.name@).len() <= 67
    }

    /// Validates all fields, collecting every failure: the age must lie
    /// in `0 ..= 100` and the name's byte length in `1 ..= 67`; the
    /// error carries each failing validator with the actual value.
    pub fn validate(&self) -> (r: Result<(), ItemKorumaValidationError>)
        ensures
            r is Ok <==> self.spec_valid(),
            r matches Err(e) ==> {
                &&& (e.age.number_range_validation is Some <==> !(0 <= self.age <= 100))
                &&& (e.age.number_range_validation matches Some(v) ==> v
                    == (NumberRangeValidation { min: 0, max: 100, actual: self.age }))
                &&& (e.name.string_length_validation is Some <==> !(1 <= sp_bytes(self.name@).len() <= 67))
                &&& (e.name.string_length_validation matches Some(v) ==> v.min == 1usize && v.max
                    == 67usize && v.input@ == self.name@)
            },
    {
        let mut error = ItemKorumaValidationError {
            age: ItemAgeKorumaValidationError { number_range_validation: None },
            name: ItemNameKorumaValidationError { string_length_validation: None },
        };
        let mut has_error = false;
        let validator = NumberRangeValidation::builder().min(0).max(100).with_value(
            self.age,
        ).build();
        if validator.validate(&self.age).is_err() {
            error.age.number_range_validation = Some(validator);
            has_error = true;
        }
        let validator = StringLengthValidation::builder().min(1).max(67).with_value(
            self.name.clone(),
        ).build();
        if validator.validate(&self.name).is_err() {
            error.name.string_length_validation = Some(validator);
            has_error = true;
        }
        if has_error {
            Err(error)
        } else {
            Ok(())
        }
    }
}

/// A record whose one field carries two validators: the value must be in
/// range and even, and both checks always run.
#[derive(Debug, Clone)]
pub struct MultiValidatorItem {
    pub value: i32,
}

/// Enum of all possible validators for the `value` field.
#[derive(Clone, Copy, Debug)]
pub enum MultiValidatorItemValueKorumaValidator {
    NumberRangeValidation(NumberRangeValidation),
    EvenNumberValidation(EvenNumberValidation),
}

/// Per-field validation error for [`MultiValidatorItem::value`].
#[derive(Clone, Copy, Debug)]
pub struct MultiValidatorItemValueKorumaValidationError {
    pub number_range_validation: Option<NumberRangeValidation>,
    pub even_number_validation: Option<EvenNumberValidation>,
}

impl MultiValidatorItemValueKorumaValidationError {
    /// The failed range validator, if the range check failed.
    pub fn number_range_validation(&self) -> (r: Option<&NumberRangeValidation>)
        ensures
            r is Some <==> self.number_range_validation is Some,
            r matches Some(v) ==> *v == self.number_range_validation->Some_0,
    {
        self.number_range_validation.as_ref()
    }

    /// The failed evenness validator, if the evenness check failed.
    pub fn even_number_validation(&self) -> (r: Option<&EvenNumberValidation>)
        ensures
            r is Some <==> self.even_number_validation is Some,
            r matches Some(v) ==> *v == self.even_number_validation->Some_0,
    {
        self.even_number_validation.as_ref()
    }

    /// Returns all failed validators of this field, in declaration
    /// order.
    pub fn all(&self) -> (r: Vec<MultiValidatorItemValueKorumaValidator>)
        ensures
            r.len() == (if self.number_range_validation is Some {
                1int
            } else {
                0int
            }) + (if self.even_number_validation is Some {
                1int
            } else {
                0int
            }),
    {
        let mut result: Vec<MultiValidatorItemValueKorumaValidator> = Vec::new();
        if let Some(v) = &self.number_range_validation {
            result.push(MultiValidatorItemValueKorumaValidator::NumberRangeValidation(*v));
        }
        if let Some(v) = &self.even_number_validation {
            result.push(MultiValidatorItemValueKorumaValidator::EvenNumberValidation(*v));
        }
        result
    }

    /// True when no check of this field failed.
    pub fn is_empty(&self) -> (r: bool)
        ensures
            r == (self.number_range_validation is None && self.even_number_validation is None),
    {
        self.number_range_validation.is_none() && self.even_number_validation.is_none()
    }

    /// True when some check of this field failed.
    pub fn has_errors(&self) -> (r: bool)
        ensures
            r == !(self.number_range_validation is None && self.even_number_validation is None),
    {
        !self.is_empty()
    }
}

/// Aggregate validation error for [`MultiValidatorItem`].
#[derive(Clone, Copy, Debug)]
pub struct MultiValidatorItemKorumaValidationError {
    pub value: MultiValidatorItemValueKorumaValidationError,
}

impl MultiValidatorItemKorumaValidationError {
    /// The `value` field's error.
    pub fn value(&self) -> (r: &MultiValidatorItemValueKorumaValidationError)
        ensures
            r == self.value,
    {
        &self.value
    }
}

impl ValidationError for MultiValidatorItemKorumaValidationError {
    /// True exactly when no check failed.
    fn is_empty(&self) -> (r: bool)
        ensures
            r == (self.value.number_range_validation is None
                && self.value.even_number_validation is None),
    {
        self.value.is_empty()
    }
}

impl MultiValidatorItem {
    /// Whether every check of this record passes.
    pub open spec fn spec_valid(&self) -> bool {
        &&& 0 <= self.value <= 100
        &&& self.value % 2 == 0
    }

    /// Validates the one field against both its validators without
    /// short-circuiting: the value must lie in `0 ..= 100` and be even,
    /// and each failing check fills its own slot.
    pub fn validate(&self) -> (r: Result<(), MultiValidatorItemKorumaValidationError>)
        ensures
            r is Ok <==> self.spec_valid(),
            r matches Err(e) ==> {
                &&& (e.value.number_range_validation is Some <==> !(0 <= self.value <= 100))
                &&& (e.value.number_range_validation matches Some(v) ==> v
                    == (NumberRangeValidation { min: 0, max: 100, actual: self.value }))
                &&& (e.value.even_number_validation is Some <==> !(self.value % 2 == 0))
                &&& (e.value.even_number_validation matches Some(v) ==> v
                    == (EvenNumberValidation { actual: self.value }))
            },
    {
        let mut error = MultiValidatorItemKorumaValidationError {
            value: MultiValidatorItemValueKorumaValidationError {
                number_range_validation: None,
                even_number_validation: None,
            },
        };
        let mut has_error = false;
        let validator = NumberRangeValidation::builder().min(0).max(100).with_value(
            self.value,
        ).build();
        if validator.validate(&self.value).is_err() {
            error.value.number_range_validation = Some(validator);
            has_error = true;
        }
        let validator = EvenNumberValidation::builder().with_value(self.value).build();
        if validator.validate(&self.value).is_err() {
            error.value.even_number_validation = Some(validator);
            has_error = true;
        }
        if has_error {
            Err(error)
        } else {
            Ok(())
        }
    }
}

/// A record mixing a required field with two optional fields: the
/// optional checks run only when a value is present.
#[derive(Debug, Clone)]
pub struct UserProfile {
    pub username: String,
    pub bio: Option<String>,
    pub age: Option<i32>,
}

/// Per-field validation error for [`UserProfile::username`].
#[derive(Clone, Debug)]
pub struct UserProfileUsernameKorumaValidationError {
    pub string_length_validation: Option<StringLengthValidation>,
}

impl UserProfileUsernameKorumaValidationError {
    /// The failed length validator, if the length check failed.
    pub fn string_length_validation(&self) -> (r: Option<&StringLengthValidation>)
        ensures
            r is Some <==> self.string_length_validation is Some,
            r matches Some(v) ==> *v == self.string_length_validation->Some_0,
    {
        self.string_length_validation.as_ref()
    }

    /// True when the length check did not fail.
    pub fn is_empty(&self) -> (r: bool)
        ensures
            r == (self.string_length_validation is None),
    {
        self.string_length_validation.is_none()
    }
}

/// Per-field validation error for [`UserProfile::bio`].
#[derive(Clone, Debug)]
pub struct UserProfileBioKorumaValidationError {
    pub string_length_validation: Option<StringLengthValidation>,
}

impl UserProfileBioKorumaValidationError {
    /// The failed length validator, if the length check failed.
    pub fn string_length_validation(&self) -> (r: Option<&StringLengthValidation>)
        ensures
            r is Some <==> self.string_length_validation is Some,
            r matches Some(v) ==> *v == self.string_length_validation->Some_0,
    {
        self.string_length_validation.as_ref()
    }

    /// True when the length check did not fail.
    pub fn is_empty(&self) -> (r: bool)
        ensures
            r == (self.string_length_validation is None),
    {
        self.string_length_validation.is_none()
    }
}

/// Per-field validation error for [`UserProfile::age`].
#[derive(Clone, Copy, Debug)]
pub struct UserProfileAgeKorumaValidationError {
    pub number_range_validation: Option<NumberRangeValidation>,
}

impl UserProfileAgeKorumaValidationError {
    /// The failed range validator, if the range check failed.
    pub fn number_range_validation(&self) -> (r: Option<&NumberRangeValidation>)
        ensures
            r is Some <==> self.number_range_validation is Some,
            r matches Some(v) ==> *v == self.number_range_validation->Some_0,
    {
        self.number_range_validation.as_ref()
    }

    /// True when the range check did not fail.
    pub fn is_empty(&self) -> (r: bool)
        ensures
            r == (self.number_range_validation is None),
    {
        self.number_range_validation.is_none()
    }
}

/// Aggregate validation error for [`UserProfile`].
#[derive(Clone, Debug)]
pub struct UserProfileKorumaValidationError {
    pub username: UserProfileUsernameKorumaValidationError,
    pub bio: UserProfileBioKorumaValidationError,
    pub age: UserProfileAgeKorumaValidationError,
}

impl UserProfileKorumaValidationError {
    /// The `username` field's error.
    pub fn username(&self) -> (r: &UserProfileUsernameKorumaValidationError)
        ensures
            r == self.username,
    {
        &self.username
    }

    /// The `bio` field's error.
    pub fn bio(&self) -> (r: &UserProfileBioKorumaValidationError)
        ensures
            r == self.bio,
    {
        &self.bio
    }

    /// The `age` field's error.
    pub fn age(&self) -> (r: &UserProfileAgeKorumaValidationError)
        ensures
            r == self.age,
    {
        &self.age
    }
}

impl ValidationError for UserProfileKorumaValidationError {
    /// True exactly when no check of any field failed.
    fn is_empty(&self) -> (r: bool)
        ensures
            r == (self.username.string_length_validation is None
                && self.bio.string_length_validation is None
                && self.age.number_range_validation is None),
    {
        self.username.is_empty() && self.bio.is_empty() && self.age.is_empty()
    }
}

impl UserProfile {
    /// Whether every check of this record passes: the username's byte
    /// length in `1 ..= 50`; a present bio's byte length in `1 ..= 200`;
    /// a present age in `0 ..= 150`; absent optional values pass by
    /// themselves.
    pub open spec fn spec_valid(&self) -> bool {
        &&& 1 <= sp_bytes(self.username@).len() <= 50
        &&& (self.bio matches Some(b) ==> 1 <= sp_bytes(b@).len() <= 200)
        &&& (self.age matches Some(a) ==> 0 <= a <= 150)
    }

    /// Validates all fields, entering the optional ones only when a
    /// value is present: an absent optional field yields no failure at
    /// all, a present one has every configured check run.
    pub fn validate(&self) -> (r: Result<(), UserProfileKorumaValidationError>)
        ensures
            r is Ok <==> self.spec_valid(),
            r matches Err(e) ==> {
                &&& (e.username.string_length_validation is Some <==> !(1 <= sp_bytes(self.username@).len() <= 50))
                &&& (e.username.string_length_validation matches Some(v) ==> v.min == 1usize
                    && v.max == 50usize && v.input@ == self.username@)
                &&& (e.bio.string_length_validation is Some <==> (self.bio matches Some(b) && !(1 <= sp_bytes(b@).len() <= 200)))
                &&& (e.bio.string_length_validation matches Some(v) ==> v.min == 1usize && v.max
                    == 200usize && v.input@ == self.bio->Some_0@)
                &&& (e.age.number_range_validation is Some <==> (self.age matches Some(a) && !(0
                    <= a <= 150)))
                &&& (e.age.number_range_validation matches Some(v) ==> v
                    == (NumberRangeValidation { min: 0, max: 150, actual: self.age->Some_0 }))
            },
    {
        let mut error = UserProfileKorumaValidationError {
            username: UserProfileUsernameKorumaValidationError {
                string_length_validation: None,
            },
            bio: UserProfileBioKorumaValidationError { string_length_validation: None },
            age: UserProfileAgeKorumaValidationError { number_range_validation: None },
        };
        let mut has_error = false;
        let validator = StringLengthValidation::builder().min(1).max(50).with_value(
            self.username.clone(),
        ).build();
        if validator.validate(&self.username).is_err() {
            error.username.string_length_validation = Some(validator);
            has_error = true;
        }
        if let Some(bio) = &self.bio {
            let validator = StringLengthValidation::builder().min(1).max(200).with_value(
                bio.clone(),
            ).build();
            if validator.validate(bio).is_err() {
                error.bio.string_length_validation = Some(validator);
                has_error = true;
            }
        }
        if let Some(age) = &self.age {
            let validator = NumberRangeValidation::builder().min(0).max(150).with_value(
                *age,
            ).build();
            if validator.validate(age).is_err() {
                error.age.number_range_validation = Some(validator);
                has_error = true;
            }
        }
        if has_error {
            Err(error)
        } else {
            Ok(())
        }
    }
}

} // verus!
