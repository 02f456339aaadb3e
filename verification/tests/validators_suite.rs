//! The validator collection: each check passes and fails where its
//! contract says, including the checks that call outside crates.

use koruma::traits::Validate;
use koruma::validators::case::{Case, CaseValidation};
use koruma::validators::collection::NonEmptyValidation;
use koruma::validators::format::{
    CreditCardValidation, EmailValidation, IpKind, IpValidation, PhoneNumberValidation,
    UrlValidation,
};
use koruma::validators::general::RequiredValidation;
use koruma::validators::numeric::{
    NegativeValidation, NonNegativeValidation, NonPositiveValidation, PositiveValidation,
    RangeValidation,
};
use koruma::validators::string::{
    AlphanumericValidation, AsciiValidation, ContainsValidation, MatchesValidation,
    PatternValidation, PrefixValidation, SuffixValidation,
};

fn text(s: &str) -> String {
    s.to_string()
}

#[test]
fn non_empty_validation() {
    let v = NonEmptyValidation::builder().with_value(text("x")).build();
    assert!(v.validate(&text("x")).is_ok());
    assert!(v.validate(&String::new()).is_err());
}

#[test]
fn range_validation_inclusive_and_exclusive() {
    let v = RangeValidation::builder()
        .min(0)
        .max(10)
        .with_value(5i64)
        .build();
    assert!(v.validate(&0).is_ok());
    assert!(v.validate(&10).is_ok());
    assert!(v.validate(&11).is_err());
    let strict = RangeValidation::builder()
        .min(0)
        .max(10)
        .exclusive_min(true)
        .exclusive_max(true)
        .with_value(5i64)
        .build();
    assert!(strict.validate(&0).is_err());
    assert!(strict.validate(&10).is_err());
    assert!(strict.validate(&9).is_ok());
}

#[test]
fn sign_validations() {
    let pos = PositiveValidation::builder().with_value(3i32).build_positive();
    assert!(pos.validate(&3).is_ok());
    assert!(pos.validate(&0).is_err());
    let neg = NegativeValidation::builder().with_value(-3i32).build_negative();
    assert!(neg.validate(&-3).is_ok());
    assert!(neg.validate(&0).is_err());
    let nn = NonNegativeValidation::builder()
        .with_value(0i32)
        .build_non_negative();
    assert!(nn.validate(&0).is_ok());
    assert!(nn.validate(&-1).is_err());
    let np = NonPositiveValidation::builder()
        .with_value(0i32)
        .build_non_positive();
    assert!(np.validate(&0).is_ok());
    assert!(np.validate(&1).is_err());
}

#[test]
fn required_validation() {
    let v: RequiredValidation<i32> = RequiredValidation::builder()
        .with_value(Some(5))
        .build();
    assert!(v.validate(&Some(5)).is_ok());
    assert!(v.validate(&None).is_err());
}

#[test]
fn contains_prefix_suffix() {
    let c = ContainsValidation::builder()
        .substring(text("test"))
        .with_value(text("a test here"))
        .build();
    assert!(c.validate(&text("a test here")).is_ok());
    assert!(c.validate(&text("nothing")).is_err());
    assert!(c.validate(&text("tes")).is_err());

    let p = PrefixValidation::builder()
        .prefix(text("hello"))
        .with_value(text("hello world"))
        .build();
    assert!(p.validate(&text("hello world")).is_ok());
    assert!(p.validate(&text("world hello")).is_err());

    let s = SuffixValidation::builder()
        .suffix(text(".txt"))
        .with_value(text("notes.txt"))
        .build();
    assert!(s.validate(&text("notes.txt")).is_ok());
    assert!(s.validate(&text("notes.rs")).is_err());
}

#[test]
fn matches_validation() {
    let v = MatchesValidation::builder()
        .other(text("secret"))
        .with_value(text("secret"))
        .build();
    assert!(v.validate(&text("secret")).is_ok());
    assert!(v.validate(&text("Secret")).is_err());
}

#[test]
fn alphanumeric_and_ascii() {
    let a = AlphanumericValidation::builder()
        .with_value(text("abc123"))
        .build_alphanumeric();
    assert!(a.validate(&text("abc123")).is_ok());
    assert!(a.validate(&text("abc 123")).is_err());

    let s = AsciiValidation::builder()
        .with_value(text("plain"))
        .build_ascii();
    assert!(s.validate(&text("plain")).is_ok());
    assert!(s.validate(&text("caf\u{00e9}")).is_err());
}

#[test]
fn pattern_validation_uses_the_pattern() {
    let v = PatternValidation::builder()
        .pattern(text("^[a-z]+[0-9]$"))
        .with_value(text("abc1"))
        .build();
    assert!(v.validate(&text("abc1")).is_ok());
    assert!(v.validate(&text("abc")).is_err());
    assert!(v.validate(&text("1abc")).is_err());
    // an invalid pattern fails every value
    let broken = PatternValidation::builder()
        .pattern(text("["))
        .with_value(text("anything"))
        .build();
    assert!(broken.validate(&text("anything")).is_err());
}

#[test]
fn case_conversion_and_validation() {
    assert_eq!(Case::Snake.convert("HelloWorld"), "hello_world");
    assert_eq!(Case::Kebab.convert("HelloWorld"), "hello-world");
    assert_eq!(Case::Camel.convert("hello_world"), "helloWorld");
    assert_eq!(Case::Pascal.convert("hello_world"), "HelloWorld");
    assert_eq!(Case::ShoutySnake.convert("helloWorld"), "HELLO_WORLD");
    assert_eq!(Case::ShoutyKebab.convert("helloWorld"), "HELLO-WORLD");
    assert_eq!(Case::Title.convert("hello_world"), "Hello World");
    assert_eq!(Case::Train.convert("hello_world"), "Hello-World");
    assert_eq!(Case::Snake.name(), "snake_case");
    assert_eq!(Case::Pascal.name(), "PascalCase");

    let v = CaseValidation::builder()
        .case(Case::Snake)
        .with_value(text("already_snake"))
        .build();
    assert!(v.validate(&text("already_snake")).is_ok());
    assert!(v.validate(&text("NotSnake")).is_err());
}

#[test]
fn email_validation() {
    let v = EmailValidation::builder()
        .with_value(text("user@host.example"))
        .build_email();
    assert!(v.validate(&text("user@host.example")).is_ok());
    assert!(v.validate(&text("user.name+tag@sub.host.example")).is_ok());
    assert!(v.validate(&text("user@[192.168.0.1]")).is_ok());
    assert!(v.validate(&text("user@[::1]")).is_ok());
    assert!(v.validate(&text("")).is_err());
    assert!(v.validate(&text("plain")).is_err());
    assert!(v.validate(&text("two@at@host")).is_err());
    assert!(v.validate(&text("user@")).is_err());
    assert!(v.validate(&text("@host")).is_err());
    assert!(v.validate(&text("user@-host.example")).is_err());
    assert!(v.validate(&text("user@host-.example")).is_err());
    assert!(v.validate(&text("user@host.example.")).is_err());
}

#[test]
fn ip_validation() {
    let any = IpValidation::builder()
        .kind(IpKind::Any)
        .with_value(text("127.0.0.1"))
        .build();
    assert!(any.validate(&text("127.0.0.1")).is_ok());
    assert!(any.validate(&text("::1")).is_ok());
    assert!(any.validate(&text("not an ip")).is_err());

    let v4 = IpValidation::builder()
        .kind(IpKind::V4)
        .with_value(text("255.255.255.255"))
        .build();
    assert!(v4.validate(&text("255.255.255.255")).is_ok());
    assert!(v4.validate(&text("256.0.0.1")).is_err());
    assert!(v4.validate(&text("1.2.3")).is_err());
    assert!(v4.validate(&text("01.2.3.4")).is_err());
    assert!(v4.validate(&text("::1")).is_err());

    let v6 = IpValidation::builder()
        .kind(IpKind::V6)
        .with_value(text("::1"))
        .build();
    assert!(v6.validate(&text("::1")).is_ok());
    assert!(v6.validate(&text("::")).is_ok());
    assert!(v6.validate(&text("2001:db8::8a2e:370:7334")).is_ok());
    assert!(v6.validate(&text("1:2:3:4:5:6:7:8")).is_ok());
    assert!(v6.validate(&text("::ffff:192.168.0.1")).is_ok());
    assert!(v6.validate(&text("1:2:3:4:5:6:7:8:9")).is_err());
    assert!(v6.validate(&text("1:2:3:4:5:6:7")).is_err());
    assert!(v6.validate(&text("1::2::3")).is_err());
    assert!(v6.validate(&text("127.0.0.1")).is_err());
    assert!(v6.validate(&text(":::")).is_err());
}

#[test]
fn credit_card_validation() {
    let v = CreditCardValidation::builder()
        .with_value(text("4111111111111111"))
        .build_credit_card();
    assert!(v.validate(&text("4111111111111111")).is_ok());
    assert!(v.validate(&text("4111111111111112")).is_err());
    assert!(v.validate(&text("not a card")).is_err());
}

#[test]
fn phone_number_validation() {
    let v = PhoneNumberValidation::builder()
        .with_value(text("+442071838750"))
        .build_phone_number();
    assert!(v.validate(&text("+442071838750")).is_ok());
    assert!(v.validate(&text("12")).is_err());
    assert!(v.validate(&text("not a phone")).is_err());
}

#[test]
fn url_validation() {
    let v = UrlValidation::builder()
        .with_value(text("https://host.example/path"))
        .build_url();
    assert!(v.validate(&text("https://host.example/path")).is_ok());
    assert!(v.validate(&text("not a url")).is_err());
}
