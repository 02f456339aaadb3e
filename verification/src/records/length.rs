//! Worked records whose fields are length-checked collections.

use vstd::prelude::*;

use crate::traits::{BuilderWithValue, Validate, ValidationError};
use crate::validators::collection::{HasLen, LenValidation};
use crate::validators::string::sp_bytes;

verus! {

/// A record whose item list must hold one to five entries.
#[derive(Debug, Clone)]
pub struct Order {
    pub items: Vec<String>,
}

/// Per-field validation error for [`Order::items`].
#[derive(Clone, Debug)]
pub struct OrderItemsKorumaValidationError {
    pub len_validation: Option<LenValidation<Vec<String>>>,
}

impl OrderItemsKorumaValidationError {
    /// The failed length validator, if the length check failed.
    pub fn len_validation(&self) -> (r: Option<&LenValidation<Vec<String>>>)
        ensures
            r is Some <==> self.len_validation is Some,
    {
        self.len_validation.as_ref()
    }

    /// True when the length check did not fail.
    pub fn is_empty(&self) -> (r: bool)
        ensures
            r == (self.len_validation is None),
    {
        self.len_validation.is_none()
    }
}

/// Aggregate validation error for [`Order`].
#[derive(Clone, Debug)]
pub struct OrderKorumaValidationError {
    pub items: OrderItemsKorumaValidationError,
}

impl OrderKorumaValidationError {
    /// The `items` field's error.
    pub fn items(&self) -> (r: &OrderItemsKorumaValidationError)
        ensures
            r == self.items,
    {
        &self.items
    }
}

impl ValidationError for OrderKorumaValidationError {
    /// True exactly when no check failed.
    fn is_empty(&self) -> (r: bool)
        ensures
            r == (self.items.len_validation is None),
    {
        self.items.is_empty()
    }
}

impl Order {
    /// Whether every check of this record passes.
    pub open spec fn spec_valid(&self) -> bool {
        1 <= self.items@.len() <= 5
    }

    /// Validates the item list's length against `1 ..= 5`.
    pub fn validate(&self) -> (r: Result<(), OrderKorumaValidationError>)
        ensures
            r is Ok <==> self.spec_valid(),
            r matches Err(e) ==> {
                &&& e.items.len_validation is Some
                &&& (e.items.len_validation matches Some(v) ==> v.min == 1usize && v.max == 5usize
                    && v.actual@.len() == self.items@.len())
            },
    {
        let mut error = OrderKorumaValidationError {
            items: OrderItemsKorumaValidationError { len_validation: None },
        };
        let mut has_error = false;
        let validator = LenValidation::<Vec<String>>::builder().min(1).max(5).with_value(
            clone_string_vec(&self.items),
        ).build();
        if validator.validate(&self.items).is_err() {
            error.items.len_validation = Some(validator);
            has_error = true;
        }
        if has_error {
            Err(error)
        } else {
            Ok(())
        }
    }
}

/// Clones a list of strings, keeping each text.
fn clone_string_vec(v: &Vec<String>) -> (r: Vec<String>)
    ensures
        r.len() == v.len(),
        forall|k: int| 0 <= k < v.len() ==> r[k]@ == v[k]@,
{
    let mut cloned: Vec<String> = Vec::new();
    let mut i: usize = 0;
    while i < v.len()
        invariant
            0 <= i <= v.len(),
            cloned.len() == i,
            forall|k: int| 0 <= k < i ==> cloned[k]@ == v[k]@,
        decreases v.len() - i,
    {
        cloned.push(v[i].clone());
        i = i + 1;
    }
    cloned
}

/// A record with two length-checked text fields.
#[derive(Debug, Clone)]
pub struct UserProfile {
    pub username: String,
    pub bio: String,
}

/// Per-field validation error for [`UserProfile::username`].
#[derive(Clone, Debug)]
pub struct UserProfileUsernameKorumaValidationError {
    pub len_validation: Option<LenValidation<String>>,
}

impl UserProfileUsernameKorumaValidationError {
    /// True when the length check did not fail.
    pub fn is_empty(&self) -> (r: bool)
        ensures
            r == (self.len_validation is None),
    {
        self.len_validation.is_none()
    }
}

/// Per-field validation error for [`UserProfile::bio`].
#[derive(Clone, Debug)]
pub struct UserProfileBioKorumaValidationError {
    pub len_validation: Option<LenValidation<String>>,
}

impl UserProfileBioKorumaValidationError {
    /// True when the length check did not fail.
    pub fn is_empty(&self) -> (r: bool)
        ensures
            r == (self.len_validation is None),
    {
        self.len_validation.is_none()
    }
}

/// Aggregate validation error for [`UserProfile`].
#[derive(Clone, Debug)]
pub struct UserProfileKorumaValidationError {
    pub username: UserProfileUsernameKorumaValidationError,
    pub bio: UserProfileBioKorumaValidationError,
}

impl UserProfileKorumaValidationError {
    /// The `username` field's error.
    pub fn username(&self) -> (r: &UserProfileUsernameKorumaValidationError)
        ensures
            r == self.username,
    {
        &self.username
    }

    /// The `bio` field's error.
    pub fn bio(&self) -> (r: &UserProfileBioKorumaValidationError)
        ensures
            r == self.bio,
    {
        &self.bio
    }
}

impl ValidationError for UserProfileKorumaValidationError {
    /// True exactly when no check failed.
    fn is_empty(&self) -> (r: bool)
        ensures
            r == (self.username.len_validation is None && self.bio.len_validation is None),
    {
        self.username.is_empty() && self.bio.is_empty()
    }
}

impl UserProfile {
    /// Whether every check of this record passes.
    pub open spec fn spec_valid(&self) -> bool {
        &&& 1 <= sp_bytes(self.username@).len() <= 50
        &&& sp_bytes(self.bio@).len() <= 500
    }

    /// Validates the username's byte length against `1 ..= 50` and the
    /// bio's against `0 ..= 500`, collecting both failures.
    pub fn validate(&self) -> (r: Result<(), UserProfileKorumaValidationError>)
        ensures
            r is Ok <==> self.spec_valid(),
            r matches Err(e) ==> {
                &&& (e.username.len_validation is Some <==> !(1 <= sp_bytes(self.username@).len() <= 50))
                &&& (e.bio.len_validation is Some <==> !(sp_bytes(self.bio@).len() <= 500))
            },
    {
        let mut error = UserProfileKorumaValidationError {
            username: UserProfileUsernameKorumaValidationError { len_validation: None },
            bio: UserProfileBioKorumaValidationError { len_validation: None },
        };
        let mut has_error = false;
        let validator = LenValidation::<String>::builder().min(1).max(50).with_value(
            self.username.clone(),
        ).build();
        if validator.validate(&self.username).is_err() {
            error.username.len_validation = Some(validator);
            has_error = true;
        }
        let validator = LenValidation::<String>::builder().min(0).max(500).with_value(
            self.bio.clone(),
        ).build();
        if validator.validate(&self.bio).is_err() {
            error.bio.len_validation = Some(validator);
            has_error = true;
        }
        if has_error {
            Err(error)
        } else {
            Ok(())
        }
    }
}

/// A record whose tag set must hold one to ten entries.
#[derive(Debug)]
pub struct TaggedPost {
    pub tags: std::collections::HashSet<String>,
}

/// Per-field validation error for [`TaggedPost::tags`].
#[derive(Debug)]
pub struct TaggedPostTagsKorumaValidationError {
    pub len_validation: Option<LenValidation<std::collections::HashSet<String>>>,
}

impl TaggedPostTagsKorumaValidationError {
    /// True when the length check did not fail.
    pub fn is_empty(&self) -> (r: bool)
        ensures
            r == (self.len_validation is None),
    {
        self.len_validation.is_none()
    }
}

/// Aggregate validation error for [`TaggedPost`].
#[derive(Debug)]
pub struct TaggedPostKorumaValidationError {
    pub tags: TaggedPostTagsKorumaValidationError,
}

impl TaggedPostKorumaValidationError {
    /// The `tags` field's error.
    pub fn tags(&self) -> (r: &TaggedPostTagsKorumaValidationError)
        ensures
            r == self.tags,
    {
        &self.tags
    }
}

impl ValidationError for TaggedPostKorumaValidationError {
    /// True exactly when no check failed.
    fn is_empty(&self) -> (r: bool)
        ensures
            r == (self.tags.len_validation is None),
    {
        self.tags.is_empty()
    }
}

/// Relies on `HashSet::clone`: the copy equals the original, so it has
/// the same size.
#[verifier::external_body]
fn clone_tag_set(s: &std::collections::HashSet<String>) -> (r: std::collections::HashSet<String>)
    ensures
        vstd::std_specs::hash::spec_hash_set_len(&r) == vstd::std_specs::hash::spec_hash_set_len(
            s,
        ),
{
    s.clone()
}

impl TaggedPost {
    /// Validates the tag set's size against `1 ..= 10`, storing the
    /// failed check with a copy of the set for error context.
    pub fn validate(&self) -> (r: Result<(), TaggedPostKorumaValidationError>)
        ensures
            r is Ok <==> 1 <= vstd::std_specs::hash::spec_hash_set_len(&self.tags) <= 10,
            r matches Err(e) ==> {
                &&& e.tags.len_validation is Some
                &&& (e.tags.len_validation matches Some(v) ==> v.min == 1usize && v.max
                    == 10usize)
            },
    {
        let mut error = TaggedPostKorumaValidationError {
            tags: TaggedPostTagsKorumaValidationError { len_validation: None },
        };
        let mut has_error = false;
        let validator = LenValidation::<std::collections::HashSet<String>>::builder().min(1).max(
            10,
        ).with_value(clone_tag_set(&self.tags)).build();
        if validator.validate(&self.tags).is_err() {
            error.tags.len_validation = Some(validator);
            has_error = true;
        }
        if has_error {
            Err(error)
        } else {
            Ok(())
        }
    }
}

} // verus!
