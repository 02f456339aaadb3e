//! The validators the worked records use: an integer range, a string
//! length, an evenness check, and a generic range over any numeric type.

use vstd::prelude::*;

use crate::traits::{BuilderWithValue, Validate};
use crate::validators::numeric::Numeric;
use crate::KorumaResult;

verus! {

/// A validation rule that checks if a number is within a specified range.
#[derive(Clone, Copy, Debug, PartialEq, Eq, Structural, Hash)]
pub struct NumberRangeValidation {
    pub min: i32,
    pub max: i32,
    /// The value being validated (stored for error context).
    pub actual: i32,
}

/// Builder for [`NumberRangeValidation`].
pub struct NumberRangeValidationBuilder {
    pub min: Option<i32>,
    pub max: Option<i32>,
    pub actual: Option<i32>,
}

impl NumberRangeValidation {
    /// Starts building a number-range validator.
    pub fn builder() -> (r: NumberRangeValidationBuilder)
        ensures
            r.min is None && r.max is None && r.actual is None,
    {
        NumberRangeValidationBuilder { min: None, max: None, actual: None }
    }
}

impl NumberRangeValidationBuilder {
    /// Sets the minimum allowed value.
    pub fn min(self, min: i32) -> (r: Self)
        ensures
            r.min == Some(min) && r.max == self.max && r.actual == self.actual,
    {
        NumberRangeValidationBuilder { min: Some(min), ..self }
    }

    /// Sets the maximum allowed value.
    pub fn max(self, max: i32) -> (r: Self)
        ensures
            r.max == Some(max) && r.min == self.min && r.actual == self.actual,
    {
        NumberRangeValidationBuilder { max: Some(max), ..self }
    }

    /// Finishes the builder; all fields must be set.
    pub fn build(self) -> (r: NumberRangeValidation)
        requires
            self.min is Some,
            self.max is Some,
            self.actual is Some,
        ensures
            r.min == self.min->Some_0 && r.max == self.max->Some_0 && r.actual
                == self.actual->Some_0,
    {
        match self {
            NumberRangeValidationBuilder { min: Some(min), max: Some(max), actual: Some(actual) }
                => NumberRangeValidation { min, max, actual },
            _ => unreached(),
        }
    }
}

impl NumberRangeValidationBuilder {
    /// Sets the value under validation through the uniform name.
    pub fn with_value(self, value: i32) -> (r: Self)
        ensures
            r.actual == Some(value) && r.min == self.min && r.max == self.max,
    {
        NumberRangeValidationBuilder { actual: Some(value), ..self }
    }
}

impl BuilderWithValue<i32> for NumberRangeValidationBuilder {
    fn with_value(self, value: i32) -> Self {
        NumberRangeValidationBuilder { actual: Some(value), ..self }
    }
}

impl Validate<i32> for NumberRangeValidation {
    /// Passes exactly when the value lies within `min ..= max`.
    fn validate(&self, value: &i32) -> (r: KorumaResult)
        ensures
            r is Ok <==> self.min <= *value <= self.max,
    {
        if *value < self.min || *value > self.max {
            Err(())
        } else {
            Ok(())
        }
    }
}

/// A validation rule that checks string length, in bytes.
#[derive(Clone, Debug)]
pub struct StringLengthValidation {
    pub min: usize,
    pub max: usize,
    /// The value being validated (stored for error context).
    pub input: String,
}

/// Builder for [`StringLengthValidation`].
pub struct StringLengthValidationBuilder {
    pub min: Option<usize>,
    pub max: Option<usize>,
    pub input: Option<String>,
}

impl StringLengthValidation {
    /// Starts building a string-length validator.
    pub fn builder() -> (r: StringLengthValidationBuilder)
        ensures
            r.min is None && r.max is None && r.input is None,
    {
        StringLengthValidationBuilder { min: None, max: None, input: None }
    }
}

impl StringLengthValidationBuilder {
    /// Sets the minimum allowed length.
    pub fn min(self, min: usize) -> (r: Self)
        ensures
            r.min == Some(min) && r.max == self.max && r.input == self.input,
    {
        StringLengthValidationBuilder { min: Some(min), ..self }
    }

    /// Sets the maximum allowed length.
    pub fn max(self, max: usize) -> (r: Self)
        ensures
            r.max == Some(max) && r.min == self.min && r.input == self.input,
    {
        StringLengthValidationBuilder { max: Some(max), ..self }
    }

    /// Finishes the builder; all fields must be set.
    pub fn build(self) -> (r: StringLengthValidation)
        requires
            self.min is Some,
            self.max is Some,
            self.input is Some,
        ensures
            r.min == self.min->Some_0 && r.max == self.max->Some_0 && r.input
                == self.input->Some_0,
    {
        match self {
            StringLengthValidationBuilder { min: Some(min), max: Some(max), input: Some(input) }
                => StringLengthValidation { min, max, input },
            _ => unreached(),
        }
    }
}

impl StringLengthValidationBuilder {
    /// Sets the value under validation through the uniform name.
    pub fn with_value(self, value: String) -> (r: Self)
        ensures
            r.input == Some(value) && r.min == self.min && r.max == self.max,
    {
        StringLengthValidationBuilder { input: Some(value), ..self }
    }
}

impl BuilderWithValue<String> for StringLengthValidationBuilder {
    fn with_value(self, value: String) -> Self {
        StringLengthValidationBuilder { input: Some(value), ..self }
    }
}

impl Validate<String> for StringLengthValidation {
    /// Passes exactly when the value's byte length lies within
    /// `min ..= max`.
    fn validate(&self, value: &String) -> (r: KorumaResult)
        ensures
            r is Ok <==> self.min <= crate::validators::string::sp_bytes(value@).len()
                <= self.max,
    {
        let len = value.as_str().as_bytes().len();
        if len < self.min || len > self.max {
            Err(())
        } else {
            Ok(())
        }
    }
}

/// A validation rule that checks if a number is even.
#[derive(Clone, Copy, Debug, PartialEq, Eq, Structural, Hash)]
pub struct EvenNumberValidation {
    /// The value being validated (stored for error context).
    pub actual: i32,
}

/// Builder for [`EvenNumberValidation`].
pub struct EvenNumberValidationBuilder {
    pub actual: Option<i32>,
}

impl EvenNumberValidation {
    /// Starts building an evenness validator.
    pub fn builder() -> (r: EvenNumberValidationBuilder)
        ensures
            r.actual is None,
    {
        EvenNumberValidationBuilder { actual: None }
    }
}

impl EvenNumberValidationBuilder {
    /// Finishes the builder; the value must be set.
    pub fn build(self) -> (r: EvenNumberValidation)
        requires
            self.actual is Some,
        ensures
            r.actual == self.actual->Some_0,
    {
        match self {
            EvenNumberValidationBuilder { actual: Some(actual) } => EvenNumberValidation {
                actual,
            },
            _ => unreached(),
        }
    }
}

impl EvenNumberValidationBuilder {
    /// Sets the value under validation through the uniform name.
    pub fn with_value(self, value: i32) -> (r: Self)
        ensures
            r.actual == Some(value),
    {
        EvenNumberValidationBuilder { actual: Some(value) }
    }
}

impl BuilderWithValue<i32> for EvenNumberValidationBuilder {
    fn with_value(self, value: i32) -> Self {
        EvenNumberValidationBuilder { actual: Some(value) }
    }
}

impl Validate<i32> for EvenNumberValidation {
    /// Passes exactly when the value is even.
    fn validate(&self, value: &i32) -> (r: KorumaResult)
        ensures
            r is Ok <==> *value % 2 == 0,
    {
        if *value % 2 != 0 {
            Err(())
        } else {
            Ok(())
        }
    }
}

/// A generic validation rule that checks if a number is within a
/// specified range, for any numeric type.
#[derive(Clone, Debug)]
pub struct GenericRangeValidation<T: Numeric> {
    pub min: T,
    pub max: T,
    /// The value being validated (stored for error context).
    pub actual: T,
}

/// Builder for [`GenericRangeValidation`].
pub struct GenericRangeValidationBuilder<T: Numeric> {
    pub min: Option<T>,
    pub max: Option<T>,
    pub actual: Option<T>,
}

impl<T: Numeric> GenericRangeValidation<T> {
    /// Starts building a generic range validator.
    pub fn builder() -> (r: GenericRangeValidationBuilder<T>)
        ensures
            r.min is None && r.max is None && r.actual is None,
    {
        GenericRangeValidationBuilder { min: None, max: None, actual: None }
    }
}

impl<T: Numeric> GenericRangeValidationBuilder<T> {
    /// Sets the minimum allowed value.
    pub fn min(self, min: T) -> (r: Self)
        ensures
            r.min == Some(min) && r.max == self.max && r.actual == self.actual,
    {
        GenericRangeValidationBuilder { min: Some(min), ..self }
    }

    /// Sets the maximum allowed value.
    pub fn max(self, max: T) -> (r: Self)
        ensures
            r.max == Some(max) && r.min == self.min && r.actual == self.actual,
    {
        GenericRangeValidationBuilder { max: Some(max), ..self }
    }

    /// Finishes the builder; all fields must be set.
    pub fn build(self) -> (r: GenericRangeValidation<T>)
        requires
            self.min is Some,
            self.max is Some,
            self.actual is Some,
        ensures
            r.min == self.min->Some_0 && r.max == self.max->Some_0 && r.actual
                == self.actual->Some_0,
    {
        match self {
            GenericRangeValidationBuilder { min: Some(min), max: Some(max), actual: Some(actual) }
                => GenericRangeValidation { min, max, actual },
            _ => unreached(),
        }
    }
}

impl<T: Numeric> GenericRangeValidationBuilder<T> {
    /// Sets the value under validation through the uniform name.
    pub fn with_value(self, value: T) -> (r: Self)
        ensures
            r.actual == Some(value) && r.min == self.min && r.max == self.max,
    {
        GenericRangeValidationBuilder { actual: Some(value), ..self }
    }
}

impl<T: Numeric> BuilderWithValue<T> for GenericRangeValidationBuilder<T> {
    fn with_value(self, value: T) -> Self {
        GenericRangeValidationBuilder { actual: Some(value), ..self }
    }
}

impl<T: Numeric> Validate<T> for GenericRangeValidation<T> {
    /// Passes exactly when the value lies within `min ..= max`.
    fn validate(&self, value: &T) -> (r: KorumaResult)
        ensures
            r is Ok <==> self.min.as_math() <= value.as_math() <= self.max.as_math(),
    {
        if self.min.le(value) && value.le(&self.max) {
            Ok(())
        } else {
            Err(())
        }
    }
}

} // verus!
