//! Case conversion, behind one trusted wrapper per converter function,
//! each result named as a function of the input text alone.

use vstd::prelude::*;

verus! {

/// The snake_case form of a text, as the case converter computes it.
pub uninterp spec fn snake_of(s: Seq<char>) -> Seq<char>;

/// The UpperCamelCase form of a text, as the case converter computes it.
pub uninterp spec fn upper_camel_of(s: Seq<char>) -> Seq<char>;

/// The kebab-case form of a text, as the case converter computes it.
pub uninterp spec fn kebab_of(s: Seq<char>) -> Seq<char>;

/// The lowerCamelCase form of a text, as the case converter computes it.
pub uninterp spec fn lower_camel_of(s: Seq<char>) -> Seq<char>;

/// The SHOUTY_SNAKE_CASE form of a text, as the case converter computes it.
pub uninterp spec fn shouty_snake_of(s: Seq<char>) -> Seq<char>;

/// The SHOUTY-KEBAB-CASE form of a text, as the case converter computes it.
pub uninterp spec fn shouty_kebab_of(s: Seq<char>) -> Seq<char>;

/// The Title Case form of a text, as the case converter computes it.
pub uninterp spec fn title_of(s: Seq<char>) -> Seq<char>;

/// The Train-Case form of a text, as the case converter computes it.
pub uninterp spec fn train_of(s: Seq<char>) -> Seq<char>;

/// Relies on heck's `ToKebabCase` for `str`: the result depends on the
/// characters of the input alone.
#[verifier::external_body]
pub(crate) fn to_kebab_case(s: &str) -> (r: String)
    ensures
        r@ == kebab_of(s@),
{
    heck::ToKebabCase::to_kebab_case(s)
}

/// Relies on heck's `ToLowerCamelCase` for `str`: the result depends on
/// the characters of the input alone.
#[verifier::external_body]
pub(crate) fn to_lower_camel_case(s: &str) -> (r: String)
    ensures
        r@ == lower_camel_of(s@),
{
    heck::ToLowerCamelCase::to_lower_camel_case(s)
}

/// Relies on heck's `ToShoutySnakeCase` for `str`: the result depends on
/// the characters of the input alone.
#[verifier::external_body]
pub(crate) fn to_shouty_snake_case(s: &str) -> (r: String)
    ensures
        r@ == shouty_snake_of(s@),
{
    heck::ToShoutySnakeCase::to_shouty_snake_case(s)
}

/// Relies on heck's `ToShoutyKebabCase` for `str`: the result depends on
/// the characters of the input alone.
#[verifier::external_body]
pub(crate) fn to_shouty_kebab_case(s: &str) -> (r: String)
    ensures
        r@ == shouty_kebab_of(s@),
{
    heck::ToShoutyKebabCase::to_shouty_kebab_case(s)
}

/// Relies on heck's `ToTitleCase` for `str`: the result depends on the
/// characters of the input alone.
#[verifier::external_body]
pub(crate) fn to_title_case(s: &str) -> (r: String)
    ensures
        r@ == title_of(s@),
{
    heck::ToTitleCase::to_title_case(s)
}

/// Relies on heck's `ToTrainCase` for `str`: the result depends on the
/// characters of the input alone.
#[verifier::external_body]
pub(crate) fn to_train_case(s: &str) -> (r: String)
    ensures
        r@ == train_of(s@),
{
    heck::ToTrainCase::to_train_case(s)
}

/// Relies on heck's `ToSnakeCase` for `str`: the result depends on the
/// characters of the input alone.
#[verifier::external_body]
pub(crate) fn to_snake_case(s: &str) -> (r: String)
    ensures
        r@ == snake_of(s@),
{
    heck::ToSnakeCase::to_snake_case(s)
}

/// Relies on heck's `ToUpperCamelCase` for `str`: the result depends on
/// the characters of the input alone.
#[verifier::external_body]
pub(crate) fn to_upper_camel_case(s: &str) -> (r: String)
    ensures
        r@ == upper_camel_of(s@),
{
    heck::ToUpperCamelCase::to_upper_camel_case(s)
}


} // verus!
