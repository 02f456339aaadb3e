//! Numeric validators: sign checks against zero and ranges with optional
//! exclusive bounds.

use vstd::prelude::*;

use crate::traits::{BuilderWithValue, Validate};
use crate::KorumaResult;

verus! {

/// Trait for numeric types that can be validated for positivity,
/// negativity and ranges: the type maps into the mathematical integers
/// and can be compared there.
pub trait Numeric: Sized {
    spec fn as_math(&self) -> int;

    fn zero() -> (r: Self)
        ensures
            r.as_math() == 0,
    ;

    fn lt(&self, other: &Self) -> (r: bool)
        ensures
            r == (self.as_math() < other.as_math()),
    ;

    fn le(&self, other: &Self) -> (r: bool)
        ensures
            r == (self.as_math() <= other.as_math()),
    ;
}

impl Numeric for i8 {
    open spec fn as_math(&self) -> int {
        *self as int
    }

    fn zero() -> i8 {
        0
    }

    fn lt(&self, other: &Self) -> bool {
        *self < *other
    }

    fn le(&self, other: &Self) -> bool {
        *self <= *other
    }
}

impl Numeric for i16 {
    open spec fn as_math(&self) -> int {
        *self as int
    }

    fn zero() -> i16 {
        0
    }

    fn lt(&self, other: &Self) -> bool {
        *self < *other
    }

    fn le(&self, other: &Self) -> bool {
        *self <= *other
    }
}

impl Numeric for i32 {
    open spec fn as_math(&self) -> int {
        *self as int
    }

    fn zero() -> i32 {
        0
    }

    fn lt(&self, other: &Self) -> bool {
        *self < *other
    }

    fn le(&self, other: &Self) -> bool {
        *self <= *other
    }
}

impl Numeric for i64 {
    open spec fn as_math(&self) -> int {
        *self as int
    }

    fn zero() -> i64 {
        0
    }

    fn lt(&self, other: &Self) -> bool {
        *self < *other
    }

    fn le(&self, other: &Self) -> bool {
        *self <= *other
    }
}

impl Numeric for i128 {
    open spec fn as_math(&self) -> int {
        *self as int
    }

    fn zero() -> i128 {
        0
    }

    fn lt(&self, other: &Self) -> bool {
        *self < *other
    }

    fn le(&self, other: &Self) -> bool {
        *self <= *other
    }
}

impl Numeric for isize {
    open spec fn as_math(&self) -> int {
        *self as int
    }

    fn zero() -> isize {
        0
    }

    fn lt(&self, other: &Self) -> bool {
        *self < *other
    }

    fn le(&self, other: &Self) -> bool {
        *self <= *other
    }
}

impl Numeric for u8 {
    open spec fn as_math(&self) -> int {
        *self as int
    }

    fn zero() -> u8 {
        0
    }

    fn lt(&self, other: &Self) -> bool {
        *self < *other
    }

    fn le(&self, other: &Self) -> bool {
        *self <= *other
    }
}

impl Numeric for u16 {
    open spec fn as_math(&self) -> int {
        *self as int
    }

    fn zero() -> u16 {
        0
    }

    fn lt(&self, other: &Self) -> bool {
        *self < *other
    }

    fn le(&self, other: &Self) -> bool {
        *self <= *other
    }
}

impl Numeric for u32 {
    open spec fn as_math(&self) -> int {
        *self as int
    }

    fn zero() -> u32 {
        0
    }

    fn lt(&self, other: &Self) -> bool {
        *self < *other
    }

    fn le(&self, other: &Self) -> bool {
        *self <= *other
    }
}

impl Numeric for u64 {
    open spec fn as_math(&self) -> int {
        *self as int
    }

    fn zero() -> u64 {
        0
    }

    fn lt(&self, other: &Self) -> bool {
        *self < *other
    }

    fn le(&self, other: &Self) -> bool {
        *self <= *other
    }
}

impl Numeric for u128 {
    open spec fn as_math(&self) -> int {
        *self as int
    }

    fn zero() -> u128 {
        0
    }

    fn lt(&self, other: &Self) -> bool {
        *self < *other
    }

    fn le(&self, other: &Self) -> bool {
        *self <= *other
    }
}

impl Numeric for usize {
    open spec fn as_math(&self) -> int {
        *self as int
    }

    fn zero() -> usize {
        0
    }

    fn lt(&self, other: &Self) -> bool {
        *self < *other
    }

    fn le(&self, other: &Self) -> bool {
        *self <= *other
    }
}

/// Validates that a numeric value is within specified bounds, each bound
/// inclusive unless marked exclusive.
#[derive(Debug, Clone)]
pub struct RangeValidation<T: Numeric> {
    /// Minimum allowed value.
    pub min: T,
    /// Whether the minimum is exclusive.
    pub exclusive_min: bool,
    /// Maximum allowed value.
    pub max: T,
    /// Whether the maximum is exclusive.
    pub exclusive_max: bool,
    /// The value being validated (stored for error context).
    pub actual: T,
}

impl<T: Numeric> RangeValidation<T> {
    /// Starts building a range validator; bounds are inclusive unless
    /// switched.
    pub fn builder() -> (r: RangeValidationBuilder<T>)
        ensures
            r.min is None && r.max is None && r.actual is None,
            !r.exclusive_min && !r.exclusive_max,
    {
        RangeValidationBuilder {
            min: None,
            exclusive_min: false,
            max: None,
            exclusive_max: false,
            actual: None,
        }
    }
}

/// Builder for [`RangeValidation`].
pub struct RangeValidationBuilder<T: Numeric> {
    pub min: Option<T>,
    pub exclusive_min: bool,
    pub max: Option<T>,
    pub exclusive_max: bool,
    pub actual: Option<T>,
}

impl<T: Numeric> RangeValidationBuilder<T> {
    /// Sets the minimum allowed value.
    pub fn min(self, min: T) -> (r: Self)
        ensures
            r.min == Some(min),
            r.max == self.max && r.actual == self.actual,
            r.exclusive_min == self.exclusive_min && r.exclusive_max == self.exclusive_max,
    {
        RangeValidationBuilder { min: Some(min), ..self }
    }

    /// Sets the maximum allowed value.
    pub fn max(self, max: T) -> (r: Self)
        ensures
            r.max == Some(max),
            r.min == self.min && r.actual == self.actual,
            r.exclusive_min == self.exclusive_min && r.exclusive_max == self.exclusive_max,
    {
        RangeValidationBuilder { max: Some(max), ..self }
    }

    /// Makes the minimum bound exclusive or inclusive.
    pub fn exclusive_min(self, exclusive_min: bool) -> (r: Self)
        ensures
            r.exclusive_min == exclusive_min,
            r.min == self.min && r.max == self.max && r.actual == self.actual,
            r.exclusive_max == self.exclusive_max,
    {
        RangeValidationBuilder { exclusive_min, ..self }
    }

    /// Makes the maximum bound exclusive or inclusive.
    pub fn exclusive_max(self, exclusive_max: bool) -> (r: Self)
        ensures
            r.exclusive_max == exclusive_max,
            r.min == self.min && r.max == self.max && r.actual == self.actual,
            r.exclusive_min == self.exclusive_min,
    {
        RangeValidationBuilder { exclusive_max, ..self }
    }

    /// Sets the value under validation.
    pub fn actual(self, actual: T) -> (r: Self)
        ensures
            r.actual == Some(actual),
            r.min == self.min && r.max == self.max,
            r.exclusive_min == self.exclusive_min && r.exclusive_max == self.exclusive_max,
    {
        RangeValidationBuilder { actual: Some(actual), ..self }
    }

    /// Sets the value under validation through the uniform name.
    pub fn with_value(self, value: T) -> (r: Self)
        ensures
            r.actual == Some(value),
            r.min == self.min && r.max == self.max,
            r.exclusive_min == self.exclusive_min && r.exclusive_max == self.exclusive_max,
    {
        self.actual(value)
    }

    /// Finishes the builder; both bounds and the value must be set.
    pub fn build(self) -> (r: RangeValidation<T>)
        requires
            self.min is Some,
            self.max is Some,
            self.actual is Some,
        ensures
            r.min == self.min->Some_0 && r.max == self.max->Some_0 && r.actual
                == self.actual->Some_0,
            r.exclusive_min == self.exclusive_min && r.exclusive_max == self.exclusive_max,
    {
        match self {
            RangeValidationBuilder {
                min: Some(min),
                exclusive_min,
                max: Some(max),
                exclusive_max,
                actual: Some(actual),
            } => RangeValidation { min, exclusive_min, max, exclusive_max, actual },
            _ => unreached(),
        }
    }
}

impl<T: Numeric> BuilderWithValue<T> for RangeValidationBuilder<T> {
    fn with_value(self, value: T) -> Self {
        self.actual(value)
    }
}

impl<T: Numeric> Validate<T> for RangeValidation<T> {
    /// Passes exactly when the value satisfies both bounds, each strict
    /// when marked exclusive.
    fn validate(&self, value: &T) -> (r: KorumaResult)
        ensures
            r is Ok <==> ((if self.exclusive_min {
                self.min.as_math() < value.as_math()
            } else {
                self.min.as_math() <= value.as_math()
            }) && (if self.exclusive_max {
                value.as_math() < self.max.as_math()
            } else {
                value.as_math() <= self.max.as_math()
            })),
    {
        let lower_ok = if self.exclusive_min {
            self.min.lt(value)
        } else {
            self.min.le(value)
        };
        let upper_ok = if self.exclusive_max {
            value.lt(&self.max)
        } else {
            value.le(&self.max)
        };
        if lower_ok && upper_ok {
            Ok(())
        } else {
            Err(())
        }
    }
}

/// Validates that a numeric value is strictly positive.
#[derive(Debug, Clone)]
pub struct PositiveValidation<T: Numeric> {
    /// The value being validated (stored for error context).
    pub actual: T,
}

/// Validates that a numeric value is strictly negative.
#[derive(Debug, Clone)]
pub struct NegativeValidation<T: Numeric> {
    /// The value being validated (stored for error context).
    pub actual: T,
}

/// Validates that a numeric value is zero or greater.
#[derive(Debug, Clone)]
pub struct NonNegativeValidation<T: Numeric> {
    /// The value being validated (stored for error context).
    pub actual: T,
}

/// Validates that a numeric value is zero or less.
#[derive(Debug, Clone)]
pub struct NonPositiveValidation<T: Numeric> {
    /// The value being validated (stored for error context).
    pub actual: T,
}

/// Builder for the one-field sign validators.
pub struct SignValidationBuilder<T: Numeric> {
    pub actual: Option<T>,
}

impl<T: Numeric> SignValidationBuilder<T> {
    /// Sets the value under validation.
    pub fn actual(self, actual: T) -> (r: Self)
        ensures
            r.actual == Some(actual),
    {
        SignValidationBuilder { actual: Some(actual) }
    }

    /// Sets the value under validation through the uniform name.
    pub fn with_value(self, value: T) -> (r: Self)
        ensures
            r.actual == Some(value),
    {
        self.actual(value)
    }
}

impl<T: Numeric> BuilderWithValue<T> for SignValidationBuilder<T> {
    fn with_value(self, value: T) -> Self {
        self.actual(value)
    }
}

impl<T: Numeric> PositiveValidation<T> {
    /// Starts building a positivity validator.
    pub fn builder() -> (r: SignValidationBuilder<T>)
        ensures
            r.actual is None,
    {
        SignValidationBuilder { actual: None }
    }
}

impl<T: Numeric> SignValidationBuilder<T> {
    /// Finishes as a positivity validator; the value must be set.
    pub fn build_positive(self) -> (r: PositiveValidation<T>)
        requires
            self.actual is Some,
        ensures
            r.actual == self.actual->Some_0,
    {
        match self {
            SignValidationBuilder { actual: Some(actual) } => PositiveValidation { actual },
            _ => unreached(),
        }
    }

    /// Finishes as a negativity validator; the value must be set.
    pub fn build_negative(self) -> (r: NegativeValidation<T>)
        requires
            self.actual is Some,
        ensures
            r.actual == self.actual->Some_0,
    {
        match self {
            SignValidationBuilder { actual: Some(actual) } => NegativeValidation { actual },
            _ => unreached(),
        }
    }

    /// Finishes as a non-negativity validator; the value must be set.
    pub fn build_non_negative(self) -> (r: NonNegativeValidation<T>)
        requires
            self.actual is Some,
        ensures
            r.actual == self.actual->Some_0,
    {
        match self {
            SignValidationBuilder { actual: Some(actual) } => NonNegativeValidation { actual },
            _ => unreached(),
        }
    }

    /// Finishes as a non-positivity validator; the value must be set.
    pub fn build_non_positive(self) -> (r: NonPositiveValidation<T>)
        requires
            self.actual is Some,
        ensures
            r.actual == self.actual->Some_0,
    {
        match self {
            SignValidationBuilder { actual: Some(actual) } => NonPositiveValidation { actual },
            _ => unreached(),
        }
    }
}

impl<T: Numeric> NegativeValidation<T> {
    /// Starts building a negativity validator.
    pub fn builder() -> (r: SignValidationBuilder<T>)
        ensures
            r.actual is None,
    {
        SignValidationBuilder { actual: None }
    }
}

impl<T: Numeric> NonNegativeValidation<T> {
    /// Starts building a non-negativity validator.
    pub fn builder() -> (r: SignValidationBuilder<T>)
        ensures
            r.actual is None,
    {
        SignValidationBuilder { actual: None }
    }
}

impl<T: Numeric> NonPositiveValidation<T> {
    /// Starts building a non-positivity validator.
    pub fn builder() -> (r: SignValidationBuilder<T>)
        ensures
            r.actual is None,
    {
        SignValidationBuilder { actual: None }
    }
}

impl<T: Numeric> Validate<T> for PositiveValidation<T> {
    /// Passes exactly when the value is strictly greater than zero.
    fn validate(&self, value: &T) -> (r: KorumaResult)
        ensures
            r is Ok <==> value.as_math() > 0,
    {
        let z = T::zero();
        if z.lt(value) {
            Ok(())
        } else {
            Err(())
        }
    }
}

impl<T: Numeric> Validate<T> for NegativeValidation<T> {
    /// Passes exactly when the value is strictly less than zero.
    fn validate(&self, value: &T) -> (r: KorumaResult)
        ensures
            r is Ok <==> value.as_math() < 0,
    {
        let z = T::zero();
        if value.lt(&z) {
            Ok(())
        } else {
            Err(())
        }
    }
}

impl<T: Numeric> Validate<T> for NonNegativeValidation<T> {
    /// Passes exactly when the value is zero or greater.
    fn validate(&self, value: &T) -> (r: KorumaResult)
        ensures
            r is Ok <==> value.as_math() >= 0,
    {
        let z = T::zero();
        if z.le(value) {
            Ok(())
        } else {
            Err(())
        }
    }
}

impl<T: Numeric> Validate<T> for NonPositiveValidation<T> {
    /// Passes exactly when the value is zero or less.
    fn validate(&self, value: &T) -> (r: KorumaResult)
        ensures
            r is Ok <==> value.as_math() <= 0,
    {
        let z = T::zero();
        if value.le(&z) {
            Ok(())
        } else {
            Err(())
        }
    }
}

} // verus!
