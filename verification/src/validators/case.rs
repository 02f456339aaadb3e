//! Case-format validation: the supported case formats, conversion into
//! each of them, and a validator that accepts a string only when it is
//! already in the chosen format.

use vstd::prelude::*;

use crate::casing::{
    kebab_of, lower_camel_of, shouty_kebab_of, shouty_snake_of, snake_of, title_of, to_kebab_case,
    to_lower_camel_case, to_shouty_kebab_case, to_shouty_snake_case, to_snake_case,
    to_title_case, to_train_case, to_upper_camel_case, train_of, upper_camel_of,
};
use crate::traits::{BuilderWithValue, Validate};
use crate::validators::string::StringLike;
use crate::KorumaResult;

verus! {

/// Represents different string case formats.
#[derive(Clone, Copy, Debug, PartialEq, Eq, Structural, Hash)]
pub enum Case {
    /// snake_case
    Snake,
    /// kebab-case
    Kebab,
    /// camelCase (lower camel case)
    Camel,
    /// PascalCase (upper camel case)
    Pascal,
    /// SCREAMING_SNAKE_CASE
    ShoutySnake,
    /// SCREAMING-KEBAB-CASE
    ShoutyKebab,
    /// Title Case
    Title,
    /// Train-Case
    Train,
}

/// The conversion a case format performs.
pub open spec fn sp_convert(case: Case, s: Seq<char>) -> Seq<char> {
    match case {
        Case::Snake => snake_of(s),
        Case::Kebab => kebab_of(s),
        Case::Camel => lower_camel_of(s),
        Case::Pascal => upper_camel_of(s),
        Case::ShoutySnake => shouty_snake_of(s),
        Case::ShoutyKebab => shouty_kebab_of(s),
        Case::Title => title_of(s),
        Case::Train => train_of(s),
    }
}

impl Case {
    /// Converts the given string to this case format.
    #[must_use]
    pub fn convert(&self, s: &str) -> (r: String)
        ensures
            r@ == sp_convert(*self, s@),
    {
        match self {
            Case::Snake => to_snake_case(s),
            Case::Kebab => to_kebab_case(s),
            Case::Camel => to_lower_camel_case(s),
            Case::Pascal => to_upper_camel_case(s),
            Case::ShoutySnake => to_shouty_snake_case(s),
            Case::ShoutyKebab => to_shouty_kebab_case(s),
            Case::Title => to_title_case(s),
            Case::Train => to_train_case(s),
        }
    }

    /// Returns the name of this case format as a human-readable string.
    #[must_use]
    pub fn name(&self) -> (r: &'static str)
        ensures
            *self == Case::Snake ==> r@ == "snake_case"@,
            *self == Case::Kebab ==> r@ == "kebab-case"@,
            *self == Case::Camel ==> r@ == "camelCase"@,
            *self == Case::Pascal ==> r@ == "PascalCase"@,
            *self == Case::ShoutySnake ==> r@ == "SCREAMING_SNAKE_CASE"@,
            *self == Case::ShoutyKebab ==> r@ == "SCREAMING-KEBAB-CASE"@,
            *self == Case::Title ==> r@ == "Title Case"@,
            *self == Case::Train ==> r@ == "Train-Case"@,
    {
        match self {
            Case::Snake => "snake_case",
            Case::Kebab => "kebab-case",
            Case::Camel => "camelCase",
            Case::Pascal => "PascalCase",
            Case::ShoutySnake => "SCREAMING_SNAKE_CASE",
            Case::ShoutyKebab => "SCREAMING-KEBAB-CASE",
            Case::Title => "Title Case",
            Case::Train => "Train-Case",
        }
    }
}

/// Validates that a string matches a specific case format: converting it
/// into the format leaves it unchanged.
#[derive(Debug, Clone)]
pub struct CaseValidation<T: StringLike> {
    /// The string being validated (stored for error context).
    pub actual: T,
    /// The expected case format.
    pub case: Case,
}

/// Builder for [`CaseValidation`].
pub struct CaseValidationBuilder<T: StringLike> {
    pub case: Option<Case>,
    pub actual: Option<T>,
}

impl<T: StringLike> CaseValidation<T> {
    /// Starts building a case validator.
    pub fn builder() -> (r: CaseValidationBuilder<T>)
        ensures
            r.case is None && r.actual is None,
    {
        CaseValidationBuilder { case: None, actual: None }
    }
}

impl<T: StringLike> CaseValidationBuilder<T> {
    /// Sets the expected case format.
    pub fn case(self, case: Case) -> (r: Self)
        ensures
            r.case == Some(case) && r.actual == self.actual,
    {
        CaseValidationBuilder { case: Some(case), ..self }
    }

    /// Sets the value under validation.
    pub fn actual(self, actual: T) -> (r: Self)
        ensures
            r.actual == Some(actual) && r.case == self.case,
    {
        CaseValidationBuilder { actual: Some(actual), ..self }
    }

    /// Sets the value under validation through the uniform name.
    pub fn with_value(self, value: T) -> (r: Self)
        ensures
            r.actual == Some(value) && r.case == self.case,
    {
        self.actual(value)
    }

    /// Finishes the builder; the case and the value must be set.
    pub fn build(self) -> (r: CaseValidation<T>)
        requires
            self.case is Some,
            self.actual is Some,
        ensures
            r.case == self.case->Some_0 && r.actual == self.actual->Some_0,
    {
        match self {
            CaseValidationBuilder { case: Some(case), actual: Some(actual) } => CaseValidation {
                actual,
                case,
            },
            _ => unreached(),
        }
    }
}

impl<T: StringLike> BuilderWithValue<T> for CaseValidationBuilder<T> {
    fn with_value(self, value: T) -> Self {
        self.actual(value)
    }
}

impl<T: StringLike> Validate<T> for CaseValidation<T> {
    /// Passes exactly when the value already is in the chosen format.
    fn validate(&self, value: &T) -> (r: KorumaResult)
        ensures
            r is Ok <==> value.spec_str() == sp_convert(self.case, value.spec_str()),
    {
        let text = value.as_text();
        let converted = self.case.convert(text);
        let original = text.to_owned();
        if original == converted {
            Ok(())
        } else {
            Err(())
        }
    }
}

} // verus!
