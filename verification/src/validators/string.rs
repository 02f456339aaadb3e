//! String validators: character classes, substring and affix tests,
//! equality against a sibling value, regular-expression patterns, and
//! case formats.

use vstd::prelude::*;

use crate::traits::{BuilderWithValue, Validate};
use crate::KorumaResult;
use vstd::string::StrSliceExecFns;

verus! {

/// Trait for types that can be treated as string references: the type
/// exposes its text, and `spec_str` is the text it promises to expose.
pub trait StringLike {
    spec fn spec_str(&self) -> Seq<char>;

    fn as_text(&self) -> (r: &str)
        ensures
            r@ == self.spec_str(),
    ;
}

impl StringLike for String {
    open spec fn spec_str(&self) -> Seq<char> {
        self@
    }

    fn as_text(&self) -> &str {
        self.as_str()
    }
}

/// The text's bytes: string containment and affixes are byte-level
/// relations, as the host string type defines them.
pub open spec fn sp_bytes(s: Seq<char>) -> Seq<u8> {
    vstd::utf8::encode_utf8(s)
}

/// Whether `needle` occurs in `haystack` starting at byte `i`.
pub open spec fn sp_occurs_at(haystack: Seq<u8>, needle: Seq<u8>, i: int) -> bool {
    0 <= i && i + needle.len() <= haystack.len() && haystack.subrange(i, i + needle.len())
        =~= needle
}

/// Whether `needle` occurs anywhere in `haystack`.
pub open spec fn sp_contains_bytes(haystack: Seq<u8>, needle: Seq<u8>) -> bool {
    exists|i: int| sp_occurs_at(haystack, needle, i)
}

/// Whether the bytes of `needle` occur at position `i` of `haystack`.
fn occurs_at(haystack: &[u8], needle: &[u8], i: usize) -> (r: bool)
    requires
        i + needle@.len() <= haystack@.len(),
    ensures
        r == sp_occurs_at(haystack@, needle@, i as int),
{
    let hn = haystack.len();
    let mut k: usize = 0;
    let mut ok = true;
    while k < needle.len()
        invariant
            0 <= k <= needle@.len(),
            i + needle@.len() <= haystack@.len(),
            hn == haystack@.len(),
            ok == (forall|m: int| 0 <= m < k ==> haystack@[i + m] == needle@[m]),
        decreases needle@.len() - k,
    {
        if haystack[i + k] != needle[k] {
            ok = false;
        }
        k = k + 1;
    }
    proof {
        if ok {
            assert(haystack@.subrange(i as int, i + needle@.len()) =~= needle@);
        } else {
            if sp_occurs_at(haystack@, needle@, i as int) {
                let m = choose|m: int| 0 <= m < needle@.len() && haystack@[i + m] != needle@[m];
                assert(haystack@.subrange(i as int, i + needle@.len())[m] == haystack@[i + m]);
            }
        }
    }
    ok
}

/// Whether the bytes of `needle` occur anywhere in `haystack`.
fn contains_bytes(haystack: &[u8], needle: &[u8]) -> (r: bool)
    ensures
        r == sp_contains_bytes(haystack@, needle@),
{
    if needle.len() > haystack.len() {
        proof {
            if sp_contains_bytes(haystack@, needle@) {
                let i = choose|i: int| sp_occurs_at(haystack@, needle@, i);
            }
        }
        return false;
    }
    if needle.len() == 0 {
        proof {
            assert(haystack@.subrange(0, 0) =~= needle@);
            assert(sp_occurs_at(haystack@, needle@, 0));
        }
        return true;
    }
    let hn = haystack.len();
    let mut i: usize = 0;
    let mut found = false;
    while i <= haystack.len() - needle.len() && !found
        invariant
            1 <= needle@.len() <= haystack@.len(),
            hn == haystack@.len(),
            0 <= i <= haystack@.len() - needle@.len() + 1,
            found ==> sp_contains_bytes(haystack@, needle@),
            !found ==> forall|m: int|
                0 <= m < i ==> !sp_occurs_at(haystack@, needle@, m),
        decreases haystack@.len() - needle@.len() - i + 1 + (if found { 0int } else { 1int }),
    {
        if occurs_at(haystack, needle, i) {
            found = true;
        }
        i = i + 1;
    }
    proof {
        if !found && sp_contains_bytes(haystack@, needle@) {
            let m = choose|m: int| sp_occurs_at(haystack@, needle@, m);
        }
    }
    found
}

/// Whether `prefix` starts `haystack`.
pub open spec fn sp_starts_with(haystack: Seq<u8>, prefix: Seq<u8>) -> bool {
    sp_occurs_at(haystack, prefix, 0)
}

/// Whether `suffix` ends `haystack`.
pub open spec fn sp_ends_with(haystack: Seq<u8>, suffix: Seq<u8>) -> bool {
    suffix.len() <= haystack.len() && sp_occurs_at(
        haystack,
        suffix,
        haystack.len() - suffix.len(),
    )
}

/// Whether the bytes of `prefix` start `haystack`.
fn starts_with_bytes(haystack: &[u8], prefix: &[u8]) -> (r: bool)
    ensures
        r == sp_starts_with(haystack@, prefix@),
{
    if prefix.len() > haystack.len() {
        return false;
    }
    occurs_at(haystack, prefix, 0)
}

/// Whether the bytes of `suffix` end `haystack`.
fn ends_with_bytes(haystack: &[u8], suffix: &[u8]) -> (r: bool)
    ensures
        r == sp_ends_with(haystack@, suffix@),
{
    if suffix.len() > haystack.len() {
        return false;
    }
    occurs_at(haystack, suffix, haystack.len() - suffix.len())
}

/// Validates that a string contains a specified substring.
#[derive(Debug, Clone)]
pub struct ContainsValidation<T: StringLike> {
    /// The substring to search for.
    pub substring: String,
    /// The string being validated (stored for error context).
    pub actual: T,
}

/// Builder for [`ContainsValidation`].
pub struct ContainsValidationBuilder<T: StringLike> {
    pub substring: Option<String>,
    pub actual: Option<T>,
}

impl<T: StringLike> ContainsValidation<T> {
    /// Starts building a containment validator.
    pub fn builder() -> (r: ContainsValidationBuilder<T>)
        ensures
            r.substring is None && r.actual is None,
    {
        ContainsValidationBuilder { substring: None, actual: None }
    }
}

impl<T: StringLike> ContainsValidationBuilder<T> {
    /// Sets the substring to search for.
    pub fn substring(self, substring: String) -> (r: Self)
        ensures
            r.substring == Some(substring) && r.actual == self.actual,
    {
        ContainsValidationBuilder { substring: Some(substring), ..self }
    }

    /// Sets the value under validation.
    pub fn actual(self, actual: T) -> (r: Self)
        ensures
            r.actual == Some(actual) && r.substring == self.substring,
    {
        ContainsValidationBuilder { actual: Some(actual), ..self }
    }

    /// Sets the value under validation through the uniform name.
    pub fn with_value(self, value: T) -> (r: Self)
        ensures
            r.actual == Some(value) && r.substring == self.substring,
    {
        self.actual(value)
    }

    /// Finishes the builder; the substring and the value must be set.
    pub fn build(self) -> (r: ContainsValidation<T>)
        requires
            self.substring is Some,
            self.actual is Some,
        ensures
            r.substring == self.substring->Some_0 && r.actual == self.actual->Some_0,
    {
        match self {
            ContainsValidationBuilder { substring: Some(substring), actual: Some(actual) } =>
                ContainsValidation { substring, actual },
            _ => unreached(),
        }
    }
}

impl<T: StringLike> BuilderWithValue<T> for ContainsValidationBuilder<T> {
    fn with_value(self, value: T) -> Self {
        self.actual(value)
    }
}

impl<T: StringLike> Validate<T> for ContainsValidation<T> {
    /// Passes exactly when the substring occurs in the value.
    fn validate(&self, value: &T) -> (r: KorumaResult)
        ensures
            r is Ok <==> sp_contains_bytes(
                sp_bytes(value.spec_str()),
                sp_bytes(self.substring@),
            ),
    {
        if contains_bytes(value.as_text().as_bytes(), self.substring.as_str().as_bytes()) {
            Ok(())
        } else {
            Err(())
        }
    }
}

/// Validates that a string starts with a specified prefix.
#[derive(Debug, Clone)]
pub struct PrefixValidation<T: StringLike> {
    /// The prefix to check for.
    pub prefix: String,
    /// The string being validated (stored for error context).
    pub actual: T,
}

/// Builder for [`PrefixValidation`].
pub struct PrefixValidationBuilder<T: StringLike> {
    pub prefix: Option<String>,
    pub actual: Option<T>,
}

impl<T: StringLike> PrefixValidation<T> {
    /// Starts building a prefix validator.
    pub fn builder() -> (r: PrefixValidationBuilder<T>)
        ensures
            r.prefix is None && r.actual is None,
    {
        PrefixValidationBuilder { prefix: None, actual: None }
    }
}

impl<T: StringLike> PrefixValidationBuilder<T> {
    /// Sets the prefix to check for.
    pub fn prefix(self, prefix: String) -> (r: Self)
        ensures
            r.prefix == Some(prefix) && r.actual == self.actual,
    {
        PrefixValidationBuilder { prefix: Some(prefix), ..self }
    }

    /// Sets the value under validation.
    pub fn actual(self, actual: T) -> (r: Self)
        ensures
            r.actual == Some(actual) && r.prefix == self.prefix,
    {
        PrefixValidationBuilder { actual: Some(actual), ..self }
    }

    /// Sets the value under validation through the uniform name.
    pub fn with_value(self, value: T) -> (r: Self)
        ensures
            r.actual == Some(value) && r.prefix == self.prefix,
    {
        self.actual(value)
    }

    /// Finishes the builder; the prefix and the value must be set.
    pub fn build(self) -> (r: PrefixValidation<T>)
        requires
            self.prefix is Some,
            self.actual is Some,
        ensures
            r.prefix == self.prefix->Some_0 && r.actual == self.actual->Some_0,
    {
        match self {
            PrefixValidationBuilder { prefix: Some(prefix), actual: Some(actual) } =>
                PrefixValidation { prefix, actual },
            _ => unreached(),
        }
    }
}

impl<T: StringLike> BuilderWithValue<T> for PrefixValidationBuilder<T> {
    fn with_value(self, value: T) -> Self {
        self.actual(value)
    }
}

impl<T: StringLike> Validate<T> for PrefixValidation<T> {
    /// Passes exactly when the value starts with the prefix.
    fn validate(&self, value: &T) -> (r: KorumaResult)
        ensures
            r is Ok <==> sp_starts_with(sp_bytes(value.spec_str()), sp_bytes(self.prefix@)),
    {
        if starts_with_bytes(value.as_text().as_bytes(), self.prefix.as_str().as_bytes()) {
            Ok(())
        } else {
            Err(())
        }
    }
}

/// Validates that a string ends with a specified suffix.
#[derive(Debug, Clone)]
pub struct SuffixValidation<T: StringLike> {
    /// The suffix to check for.
    pub suffix: String,
    /// The string being validated (stored for error context).
    pub actual: T,
}

/// Builder for [`SuffixValidation`].
pub struct SuffixValidationBuilder<T: StringLike> {
    pub suffix: Option<String>,
    pub actual: Option<T>,
}

impl<T: StringLike> SuffixValidation<T> {
    /// Starts building a suffix validator.
    pub fn builder() -> (r: SuffixValidationBuilder<T>)
        ensures
            r.suffix is None && r.actual is None,
    {
        SuffixValidationBuilder { suffix: None, actual: None }
    }
}

impl<T: StringLike> SuffixValidationBuilder<T> {
    /// Sets the suffix to check for.
    pub fn suffix(self, suffix: String) -> (r: Self)
        ensures
            r.suffix == Some(suffix) && r.actual == self.actual,
    {
        SuffixValidationBuilder { suffix: Some(suffix), ..self }
    }

    /// Sets the value under validation.
    pub fn actual(self, actual: T) -> (r: Self)
        ensures
            r.actual == Some(actual) && r.suffix == self.suffix,
    {
        SuffixValidationBuilder { actual: Some(actual), ..self }
    }

    /// Sets the value under validation through the uniform name.
    pub fn with_value(self, value: T) -> (r: Self)
        ensures
            r.actual == Some(value) && r.suffix == self.suffix,
    {
        self.actual(value)
    }

    /// Finishes the builder; the suffix and the value must be set.
    pub fn build(self) -> (r: SuffixValidation<T>)
        requires
            self.suffix is Some,
            self.actual is Some,
        ensures
            r.suffix == self.suffix->Some_0 && r.actual == self.actual->Some_0,
    {
        match self {
            SuffixValidationBuilder { suffix: Some(suffix), actual: Some(actual) } =>
                SuffixValidation { suffix, actual },
            _ => unreached(),
        }
    }
}

impl<T: StringLike> BuilderWithValue<T> for SuffixValidationBuilder<T> {
    fn with_value(self, value: T) -> Self {
        self.actual(value)
    }
}

impl<T: StringLike> Validate<T> for SuffixValidation<T> {
    /// Passes exactly when the value ends with the suffix.
    fn validate(&self, value: &T) -> (r: KorumaResult)
        ensures
            r is Ok <==> sp_ends_with(sp_bytes(value.spec_str()), sp_bytes(self.suffix@)),
    {
        if ends_with_bytes(value.as_text().as_bytes(), self.suffix.as_str().as_bytes()) {
            Ok(())
        } else {
            Err(())
        }
    }
}

/// Validates that a value matches another value, such as a password
/// confirmation matching the password field.
#[derive(Debug, Clone)]
pub struct MatchesValidation<T: StringLike> {
    /// The value to match against.
    pub other: T,
    /// The value being validated (stored for error context).
    pub actual: T,
}

/// Builder for [`MatchesValidation`].
pub struct MatchesValidationBuilder<T: StringLike> {
    pub other: Option<T>,
    pub actual: Option<T>,
}

impl<T: StringLike> MatchesValidation<T> {
    /// Starts building an equality validator.
    pub fn builder() -> (r: MatchesValidationBuilder<T>)
        ensures
            r.other is None && r.actual is None,
    {
        MatchesValidationBuilder { other: None, actual: None }
    }
}

impl<T: StringLike> MatchesValidationBuilder<T> {
    /// Sets the value to match against.
    pub fn other(self, other: T) -> (r: Self)
        ensures
            r.other == Some(other) && r.actual == self.actual,
    {
        MatchesValidationBuilder { other: Some(other), ..self }
    }

    /// Sets the value under validation.
    pub fn actual(self, actual: T) -> (r: Self)
        ensures
            r.actual == Some(actual) && r.other == self.other,
    {
        MatchesValidationBuilder { actual: Some(actual), ..self }
    }

    /// Sets the value under validation through the uniform name.
    pub fn with_value(self, value: T) -> (r: Self)
        ensures
            r.actual == Some(value) && r.other == self.other,
    {
        self.actual(value)
    }

    /// Finishes the builder; both values must be set.
    pub fn build(self) -> (r: MatchesValidation<T>)
        requires
            self.other is Some,
            self.actual is Some,
        ensures
            r.other == self.other->Some_0 && r.actual == self.actual->Some_0,
    {
        match self {
            MatchesValidationBuilder { other: Some(other), actual: Some(actual) } =>
                MatchesValidation { other, actual },
            _ => unreached(),
        }
    }
}

impl<T: StringLike> BuilderWithValue<T> for MatchesValidationBuilder<T> {
    fn with_value(self, value: T) -> Self {
        self.actual(value)
    }
}

impl<T: StringLike> Validate<T> for MatchesValidation<T> {
    /// Passes exactly when the value equals the expected one.
    fn validate(&self, value: &T) -> (r: KorumaResult)
        ensures
            r is Ok <==> value.spec_str() == self.other.spec_str(),
    {
        let a = value.as_text().to_owned();
        let b = self.other.as_text().to_owned();
        if a == b {
            Ok(())
        } else {
            Err(())
        }
    }
}

/// The alphanumeric character class, as the host language defines it.
pub uninterp spec fn alphanumeric_of(c: char) -> bool;

/// Relies on `char::is_alphanumeric`: the result depends on the character
/// alone.
#[verifier::external_body]
fn char_is_alphanumeric(c: char) -> (r: bool)
    ensures
        r == alphanumeric_of(c),
{
    c.is_alphanumeric()
}

/// Validates that a string contains only alphanumeric characters.
#[derive(Debug, Clone)]
pub struct AlphanumericValidation<T: StringLike> {
    /// The string being validated (stored for error context).
    pub actual: T,
}

/// Builder for the one-field string-class validators.
pub struct TextValidationBuilder<T: StringLike> {
    pub actual: Option<T>,
}

impl<T: StringLike> TextValidationBuilder<T> {
    /// Sets the value under validation.
    pub fn actual(self, actual: T) -> (r: Self)
        ensures
            r.actual == Some(actual),
    {
        TextValidationBuilder { actual: Some(actual) }
    }

    /// Sets the value under validation through the uniform name.
    pub fn with_value(self, value: T) -> (r: Self)
        ensures
            r.actual == Some(value),
    {
        self.actual(value)
    }
}

impl<T: StringLike> BuilderWithValue<T> for TextValidationBuilder<T> {
    fn with_value(self, value: T) -> Self {
        self.actual(value)
    }
}

impl<T: StringLike> AlphanumericValidation<T> {
    /// Starts building an alphanumeric validator.
    pub fn builder() -> (r: TextValidationBuilder<T>)
        ensures
            r.actual is None,
    {
        TextValidationBuilder { actual: None }
    }
}

impl<T: StringLike> TextValidationBuilder<T> {
    /// Finishes as an alphanumeric validator; the value must be set.
    pub fn build_alphanumeric(self) -> (r: AlphanumericValidation<T>)
        requires
            self.actual is Some,
        ensures
            r.actual == self.actual->Some_0,
    {
        match self {
            TextValidationBuilder { actual: Some(actual) } => AlphanumericValidation { actual },
            _ => unreached(),
        }
    }

    /// Finishes as an ASCII validator; the value must be set.
    pub fn build_ascii(self) -> (r: AsciiValidation<T>)
        requires
            self.actual is Some,
        ensures
            r.actual == self.actual->Some_0,
    {
        match self {
            TextValidationBuilder { actual: Some(actual) } => AsciiValidation { actual },
            _ => unreached(),
        }
    }
}

impl<T: StringLike> Validate<T> for AlphanumericValidation<T> {
    /// Passes exactly when every character is alphanumeric.
    fn validate(&self, value: &T) -> (r: KorumaResult)
        ensures
            r is Ok <==> (forall|i: int|
                0 <= i < value.spec_str().len() ==> alphanumeric_of(
                    #[trigger] value.spec_str()[i],
                )),
    {
        let text = value.as_text();
        let n = text.unicode_len();
        let mut i: usize = 0;
        let mut all_ok = true;
        while i < n
            invariant
                0 <= i <= n,
                n == text@.len(),
                text@ == value.spec_str(),
                all_ok == (forall|k: int|
                    0 <= k < i ==> alphanumeric_of(#[trigger] text@[k])),
            decreases n - i,
        {
            let c = text.get_char(i);
            if !char_is_alphanumeric(c) {
                all_ok = false;
            }
            i = i + 1;
        }
        if all_ok {
            Ok(())
        } else {
            Err(())
        }
    }
}

/// Validates that a string contains only ASCII characters.
#[derive(Debug, Clone)]
pub struct AsciiValidation<T: StringLike> {
    /// The string being validated (stored for error context).
    pub actual: T,
}

impl<T: StringLike> AsciiValidation<T> {
    /// Starts building an ASCII validator.
    pub fn builder() -> (r: TextValidationBuilder<T>)
        ensures
            r.actual is None,
    {
        TextValidationBuilder { actual: None }
    }
}

impl<T: StringLike> Validate<T> for AsciiValidation<T> {
    /// Passes exactly when every character is in the ASCII range.
    fn validate(&self, value: &T) -> (r: KorumaResult)
        ensures
            r is Ok <==> vstd::utf8::is_ascii_chars(value.spec_str()),
    {
        if value.as_text().is_ascii() {
            Ok(())
        } else {
            Err(())
        }
    }
}

/// Whether a pattern is a valid regular expression, as the regex engine
/// decides it.
pub uninterp spec fn regex_valid(pattern: Seq<char>) -> bool;

/// Whether a valid pattern matches a text, as the regex engine decides
/// it.
pub uninterp spec fn regex_match_of(pattern: Seq<char>, text: Seq<char>) -> bool;

/// Relies on regex's `Regex::new` and `Regex::is_match`: compilation
/// succeeds for a pattern independently of the text, and the match result
/// depends on the pattern and the text alone.
#[verifier::external_body]
fn regex_is_match(pattern: &str, text: &str) -> (r: Option<bool>)
    ensures
        match r {
            Some(b) => regex_valid(pattern@) && b == regex_match_of(pattern@, text@),
            None => !regex_valid(pattern@),
        },
{
    match regex::Regex::new(pattern) {
        Ok(re) => Some(re.is_match(text)),
        Err(_) => None,
    }
}

/// Validates that a string matches a regular-expression pattern; an
/// invalid pattern fails every value.
#[derive(Debug, Clone)]
pub struct PatternValidation<T: StringLike> {
    /// The pattern to match against.
    pub pattern: String,
    /// The string being validated (stored for error context).
    pub actual: T,
}

/// Builder for [`PatternValidation`].
pub struct PatternValidationBuilder<T: StringLike> {
    pub pattern: Option<String>,
    pub actual: Option<T>,
}

impl<T: StringLike> PatternValidation<T> {
    /// Starts building a pattern validator.
    pub fn builder() -> (r: PatternValidationBuilder<T>)
        ensures
            r.pattern is None && r.actual is None,
    {
        PatternValidationBuilder { pattern: None, actual: None }
    }
}

impl<T: StringLike> PatternValidationBuilder<T> {
    /// Sets the pattern to match against.
    pub fn pattern(self, pattern: String) -> (r: Self)
        ensures
            r.pattern == Some(pattern) && r.actual == self.actual,
    {
        PatternValidationBuilder { pattern: Some(pattern), ..self }
    }

    /// Sets the value under validation.
    pub fn actual(self, actual: T) -> (r: Self)
        ensures
            r.actual == Some(actual) && r.pattern == self.pattern,
    {
        PatternValidationBuilder { actual: Some(actual), ..self }
    }

    /// Sets the value under validation through the uniform name.
    pub fn with_value(self, value: T) -> (r: Self)
        ensures
            r.actual == Some(value) && r.pattern == self.pattern,
    {
        self.actual(value)
    }

    /// Finishes the builder; the pattern and the value must be set.
    pub fn build(self) -> (r: PatternValidation<T>)
        requires
            self.pattern is Some,
            self.actual is Some,
        ensures
            r.pattern == self.pattern->Some_0 && r.actual == self.actual->Some_0,
    {
        match self {
            PatternValidationBuilder { pattern: Some(pattern), actual: Some(actual) } =>
                PatternValidation { pattern, actual },
            _ => unreached(),
        }
    }
}

impl<T: StringLike> BuilderWithValue<T> for PatternValidationBuilder<T> {
    fn with_value(self, value: T) -> Self {
        self.actual(value)
    }
}

impl<T: StringLike> Validate<T> for PatternValidation<T> {
    /// Passes exactly when the pattern is valid and matches the value.
    fn validate(&self, value: &T) -> (r: KorumaResult)
        ensures
            r is Ok <==> (regex_valid(self.pattern@) && regex_match_of(
                self.pattern@,
                value.spec_str(),
            )),
    {
        match regex_is_match(self.pattern.as_str(), value.as_text()) {
            Some(true) => Ok(()),
            _ => Err(()),
        }
    }
}

} // verus!
