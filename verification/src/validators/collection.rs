//! Collection validators: a measurable length within bounds, and
//! non-emptiness.

use vstd::prelude::*;

use crate::traits::{BuilderWithValue, Validate};
use crate::KorumaResult;
use vstd::string::StrSliceExecFns;
use vstd::string::StringSliceAdditionalSpecFns;

verus! {

/// Trait for types that have a measurable length.
///
/// Implemented for common collections; users can implement it for their
/// own collection types. `spec_len` is the length the implementation
/// promises to report.
pub trait HasLen {
    spec fn spec_len(&self) -> nat;

    fn len(&self) -> (r: usize)
        ensures
            r == self.spec_len(),
    ;

    fn is_empty(&self) -> (r: bool)
        ensures
            r == (self.spec_len() == 0),
    {
        self.len() == 0
    }
}

impl<T> HasLen for Vec<T> {
    open spec fn spec_len(&self) -> nat {
        self@.len()
    }

    fn len(&self) -> (r: usize) {
        let v: &Vec<T> = self;
        v.len()
    }
}

impl HasLen for String {
    /// A string's length counts its bytes.
    open spec fn spec_len(&self) -> nat {
        vstd::utf8::encode_utf8(self@).len()
    }

    fn len(&self) -> (r: usize) {
        self.as_str().as_bytes().len()
    }
}

impl<Key> HasLen for std::collections::HashSet<Key> {
    open spec fn spec_len(&self) -> nat {
        vstd::std_specs::hash::spec_hash_set_len(self) as nat
    }

    fn len(&self) -> (r: usize) {
        let s: &std::collections::HashSet<Key> = self;
        s.len()
    }
}

impl<Key, Value> HasLen for std::collections::HashMap<Key, Value> {
    open spec fn spec_len(&self) -> nat {
        vstd::std_specs::hash::spec_hash_map_len(self) as nat
    }

    fn len(&self) -> (r: usize) {
        let m: &std::collections::HashMap<Key, Value> = self;
        m.len()
    }
}

/// Validates that a collection's length is within the specified bounds.
///
/// Works with any type that implements `HasLen`.
#[derive(Debug, Clone)]
pub struct LenValidation<T: HasLen> {
    /// Minimum allowed length (inclusive).
    pub min: usize,
    /// Maximum allowed length (inclusive).
    pub max: usize,
    /// The collection being validated (stored for error context).
    pub actual: T,
}

impl<T: HasLen> LenValidation<T> {
    /// Starts building a length validator.
    pub fn builder() -> (r: LenValidationBuilder<T>)
        ensures
            r.min == 0usize && r.max == 0usize && r.actual is None,
    {
        LenValidationBuilder { min: 0, max: 0, actual: None }
    }

    /// Whether the stored collection's length lies within the bounds.
    pub open spec fn spec_holds_of(&self, len: nat) -> bool {
        self.min <= len <= self.max
    }

    /// The failure message for this check; presentation only, carrying
    /// the actual length beside the bounds.
    pub fn message(&self) -> String {
        let len_text = self.actual.len().to_string();
        let min_text = self.min.to_string();
        let max_text = self.max.to_string();
        "length ".to_owned().concat(len_text.as_str()).concat(" is not within bounds [").concat(
            min_text.as_str(),
        ).concat(", ").concat(max_text.as_str()).concat("]")
    }
}

/// Builder for [`LenValidation`]; the value under validation arrives via
/// `actual` or the uniform `with_value`.
pub struct LenValidationBuilder<T: HasLen> {
    pub min: usize,
    pub max: usize,
    pub actual: Option<T>,
}

impl<T: HasLen> LenValidationBuilder<T> {
    /// Sets the minimum allowed length.
    pub fn min(self, min: usize) -> (r: Self)
        ensures
            r.min == min && r.max == self.max && r.actual == self.actual,
    {
        LenValidationBuilder { min, ..self }
    }

    /// Sets the maximum allowed length.
    pub fn max(self, max: usize) -> (r: Self)
        ensures
            r.max == max && r.min == self.min && r.actual == self.actual,
    {
        LenValidationBuilder { max, ..self }
    }

    /// Sets the collection under validation.
    pub fn actual(self, actual: T) -> (r: Self)
        ensures
            r.actual == Some(actual) && r.min == self.min && r.max == self.max,
    {
        LenValidationBuilder { actual: Some(actual), ..self }
    }

    /// Sets the collection under validation through the uniform name.
    pub fn with_value(self, value: T) -> (r: Self)
        ensures
            r.actual == Some(value) && r.min == self.min && r.max == self.max,
    {
        self.actual(value)
    }

    /// Finishes the builder; the value must have been set.
    pub fn build(self) -> (r: LenValidation<T>)
        requires
            self.actual is Some,
        ensures
            r.min == self.min && r.max == self.max && r.actual == self.actual->Some_0,
    {
        match self {
            LenValidationBuilder { min, max, actual: Some(actual) } => LenValidation {
                min,
                max,
                actual,
            },
            _ => unreached(),
        }
    }
}

impl<T: HasLen> BuilderWithValue<T> for LenValidationBuilder<T> {
    fn with_value(self, value: T) -> Self {
        self.actual(value)
    }
}

impl<T: HasLen> Validate<T> for LenValidation<T> {
    /// Passes exactly when the value's length lies within `min ..= max`.
    fn validate(&self, value: &T) -> (r: KorumaResult)
        ensures
            r is Ok <==> self.min <= value.spec_len() <= self.max,
    {
        let len = value.len();
        if len < self.min || len > self.max {
            Err(())
        } else {
            Ok(())
        }
    }
}

/// Validates that a string or collection is not empty.
#[derive(Debug, Clone)]
pub struct NonEmptyValidation<T: HasLen> {
    /// The value being validated (stored for error context).
    pub actual: T,
}

impl<T: HasLen> NonEmptyValidation<T> {
    /// Starts building a non-emptiness validator.
    pub fn builder() -> (r: NonEmptyValidationBuilder<T>)
        ensures
            r.actual is None,
    {
        NonEmptyValidationBuilder { actual: None }
    }

    /// The failure message for this check.
    pub fn message(&self) -> (r: String)
        ensures
            r@ == "value must not be empty"@,
    {
        "value must not be empty".to_owned()
    }
}

/// Builder for [`NonEmptyValidation`].
pub struct NonEmptyValidationBuilder<T: HasLen> {
    pub actual: Option<T>,
}

impl<T: HasLen> NonEmptyValidationBuilder<T> {
    /// Sets the value under validation.
    pub fn actual(self, actual: T) -> (r: Self)
        ensures
            r.actual == Some(actual),
    {
        NonEmptyValidationBuilder { actual: Some(actual) }
    }

    /// Sets the value under validation through the uniform name.
    pub fn with_value(self, value: T) -> (r: Self)
        ensures
            r.actual == Some(value),
    {
        self.actual(value)
    }

    /// Finishes the builder; the value must have been set.
    pub fn build(self) -> (r: NonEmptyValidation<T>)
        requires
            self.actual is Some,
        ensures
            r.actual == self.actual->Some_0,
    {
        match self {
            NonEmptyValidationBuilder { actual: Some(actual) } => NonEmptyValidation { actual },
            _ => unreached(),
        }
    }
}

impl<T: HasLen> BuilderWithValue<T> for NonEmptyValidationBuilder<T> {
    fn with_value(self, value: T) -> Self {
        self.actual(value)
    }
}

impl<T: HasLen> Validate<T> for NonEmptyValidation<T> {
    /// Passes exactly when the value is not empty.
    fn validate(&self, value: &T) -> (r: KorumaResult)
        ensures
            r is Ok <==> value.spec_len() > 0,
    {
        if value.is_empty() {
            Err(())
        } else {
            Ok(())
        }
    }
}

} // verus!
