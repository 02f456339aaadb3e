//! Format validators: email addresses, IP addresses, credit card
//! numbers, phone numbers and URLs. The email and IP grammars are the
//! library's own logic, stated and checked over the value's bytes; card,
//! phone and URL checks call their dedicated crates.

use vstd::prelude::*;

use crate::traits::{BuilderWithValue, Validate};
use crate::validators::string::StringLike;
use crate::KorumaResult;

verus! {

/// An ASCII decimal digit.
pub open spec fn sp_is_digit(b: u8) -> bool {
    48 <= b <= 57
}

/// An ASCII hexadecimal digit.
pub open spec fn sp_is_hex(b: u8) -> bool {
    sp_is_digit(b) || (97 <= b <= 102) || (65 <= b <= 70)
}

/// An ASCII letter or digit.
pub open spec fn sp_is_alnum(b: u8) -> bool {
    sp_is_digit(b) || (97 <= b <= 122) || (65 <= b <= 90)
}

/// The end of the digit run starting at `i`.
pub open spec fn sp_digit_end(b: Seq<u8>, i: int) -> int
    decreases b.len() - i,
{
    if 0 <= i < b.len() && sp_is_digit(b[i]) {
        sp_digit_end(b, i + 1)
    } else {
        i
    }
}

/// The end of the hex-digit run starting at `i`.
pub open spec fn sp_hex_end(b: Seq<u8>, i: int) -> int
    decreases b.len() - i,
{
    if 0 <= i < b.len() && sp_is_hex(b[i]) {
        sp_hex_end(b, i + 1)
    } else {
        i
    }
}

/// The numeric value of the digit run `i .. e`.
pub open spec fn sp_digit_value(b: Seq<u8>, i: int, e: int) -> int
    decreases e - i,
{
    if i >= e {
        0
    } else {
        sp_digit_value(b, i, e - 1) * 10 + (b[e - 1] - 48)
    }
}

/// A dotted-decimal IPv4 address: `parts` octets separated by dots,
/// reading from `i` to the end. An octet is one to three digits, without
/// a leading zero unless it is `0` itself, valued at most 255.
pub open spec fn sp_ipv4_from(b: Seq<u8>, i: int, parts: int) -> bool
    decreases parts,
{
    if !(0 <= i <= b.len()) || parts <= 0 {
        false
    } else {
        let e = sp_digit_end(b, i);
        if !(i < e && e - i <= 3 && !(e - i > 1 && b[i] == 48) && sp_digit_value(b, i, e)
            <= 255) {
            false
        } else if parts == 1 {
            e == b.len()
        } else {
            e < b.len() && b[e] == 46 && sp_ipv4_from(b, e + 1, parts - 1)
        }
    }
}

/// A dotted-decimal IPv4 address covering the whole text.
pub open spec fn sp_ipv4(b: Seq<u8>) -> bool {
    sp_ipv4_from(b, 0, 4)
}

/// An IPv6 address continued at `i`, where a group is expected: a hex
/// group of one to four digits, an embedded IPv4 tail, and colon
/// separators, with `::` compressing at most once.
pub open spec fn sp_ipv6_groups(b: Seq<u8>, i: int, groups: int, compressed: bool) -> bool
    decreases b.len() - i, 0int,
{
    if !(0 <= i < b.len()) {
        false
    } else if sp_ipv4_from(b, i, 4) && (if compressed {
        groups + 2 <= 7
    } else {
        groups + 2 == 8
    }) {
        true
    } else {
        let e = sp_hex_end(b, i);
        if !(i < e && e - i <= 4) {
            false
        } else if e == b.len() {
            if compressed {
                groups + 1 <= 7
            } else {
                groups + 1 == 8
            }
        } else if b[e] == 58 {
            if e + 1 < b.len() && b[e + 1] == 58 {
                !compressed && i < e + 2 && sp_ipv6_tail(b, e + 2, groups + 1)
            } else {
                e + 1 < b.len() && !(b[e + 1] == 58) && i < e + 1 && sp_ipv6_groups(
                    b,
                    e + 1,
                    groups + 1,
                    compressed,
                )
            }
        } else {
            false
        }
    }
}

/// An IPv6 address continued right after a `::`: more groups, or the
/// end of the text.
pub open spec fn sp_ipv6_tail(b: Seq<u8>, i: int, groups: int) -> bool
    decreases b.len() - i, 1int,
{
    if i >= b.len() {
        0 <= groups <= 7
    } else {
        sp_ipv6_groups(b, i, groups, true)
    }
}

/// An IPv6 address covering the whole text.
pub open spec fn sp_ipv6(b: Seq<u8>) -> bool {
    if b.len() >= 2 && b[0] == 58 && b[1] == 58 {
        sp_ipv6_tail(b, 2, 0)
    } else {
        sp_ipv6_groups(b, 0, 0, false)
    }
}

/// The end of the digit run starting at `i`.
fn digit_end(b: &[u8], i: usize) -> (r: usize)
    requires
        i <= b@.len(),
    ensures
        r == sp_digit_end(b@, i as int),
        i <= r <= b@.len(),
{
    let mut j = i;
    let mut stop = false;
    while !stop
        invariant
            i <= j <= b@.len(),
            sp_digit_end(b@, i as int) == sp_digit_end(b@, j as int),
            stop ==> !(j < b@.len() && sp_is_digit(b@[j as int])),
        decreases b@.len() - j + (if stop { 0int } else { 1int }),
    {
        if j < b.len() && b[j] >= 48 && b[j] <= 57 {
            j = j + 1;
        } else {
            stop = true;
        }
    }
    j
}

/// The end of the hex-digit run starting at `i`.
fn hex_end(b: &[u8], i: usize) -> (r: usize)
    requires
        i <= b@.len(),
    ensures
        r == sp_hex_end(b@, i as int),
        i <= r <= b@.len(),
{
    let mut j = i;
    let mut stop = false;
    while !stop
        invariant
            i <= j <= b@.len(),
            sp_hex_end(b@, i as int) == sp_hex_end(b@, j as int),
            stop ==> !(j < b@.len() && sp_is_hex(b@[j as int])),
        decreases b@.len() - j + (if stop { 0int } else { 1int }),
    {
        if j < b.len() && ((b[j] >= 48 && b[j] <= 57) || (b[j] >= 97 && b[j] <= 102) || (b[j]
            >= 65 && b[j] <= 70)) {
            j = j + 1;
        } else {
            stop = true;
        }
    }
    j
}

/// Every position of a digit run holds a digit.
proof fn lemma_digit_run(b: Seq<u8>, i: int)
    requires
        0 <= i,
    ensures
        i <= sp_digit_end(b, i),
        i <= b.len() ==> sp_digit_end(b, i) <= b.len(),
        forall|m: int| i <= m < sp_digit_end(b, i) ==> sp_is_digit(b[m]),
    decreases b.len() - i,
{
    if 0 <= i < b.len() && sp_is_digit(b[i]) {
        lemma_digit_run(b, i + 1);
    }
}

/// Checks a dotted-decimal IPv4 address from `i` with `parts` octets
/// remaining.
fn ipv4_from(b: &[u8], i: usize, parts: u8) -> (r: bool)
    requires
        i <= b@.len(),
    ensures
        r == sp_ipv4_from(b@, i as int, parts as int),
    decreases parts,
{
    if parts == 0 {
        return false;
    }
    let e = digit_end(b, i);
    if !(i < e && e - i <= 3) {
        return false;
    }
    if e - i > 1 && b[i] == 48 {
        return false;
    }
    proof {
        lemma_digit_run(b@, i as int);
    }
    let mut val: u32 = 0;
    let mut k: usize = i;
    while k < e
        invariant
            i <= k <= e <= b@.len(),
            e - i <= 3,
            val == sp_digit_value(b@, i as int, k as int),
            k == i ==> val == 0,
            k - i == 1 ==> val <= 9,
            k - i == 2 ==> val <= 99,
            k - i == 3 ==> val <= 999,
            forall|m: int| i <= m < e ==> sp_is_digit(b@[m]),
        decreases e - k,
    {
        proof {
            assert(sp_digit_value(b@, i as int, k + 1) == sp_digit_value(b@, i as int, k as int)
                * 10 + (b@[k as int] - 48));
        }
        val = val * 10 + ((b[k] - 48) as u32);
        k = k + 1;
    }
    if val > 255 {
        return false;
    }
    if parts == 1 {
        e == b.len()
    } else {
        if e < b.len() && b[e] == 46 {
            ipv4_from(b, e + 1, parts - 1)
        } else {
            false
        }
    }
}

/// Checks a dotted-decimal IPv4 address covering the whole text.
fn is_ipv4(b: &[u8]) -> (r: bool)
    ensures
        r == sp_ipv4(b@),
{
    ipv4_from(b, 0, 4)
}

/// Checks IPv6 groups from `i`.
fn ipv6_groups(b: &[u8], i: usize, groups: usize, compressed: bool) -> (r: bool)
    requires
        i <= b@.len(),
        groups <= i,
    ensures
        r == sp_ipv6_groups(b@, i as int, groups as int, compressed),
    decreases b@.len() - i, 0int,
{
    if i >= b.len() {
        return false;
    }
    if ipv4_from(b, i, 4) && (if compressed {
        groups + 2 <= 7
    } else {
        groups + 2 == 8
    }) {
        return true;
    }
    let e = hex_end(b, i);
    if !(i < e && e - i <= 4) {
        return false;
    }
    if e == b.len() {
        if compressed {
            groups + 1 <= 7
        } else {
            groups + 1 == 8
        }
    } else if b[e] == 58 {
        if e + 1 < b.len() && b[e + 1] == 58 {
            if compressed {
                false
            } else {
                ipv6_tail(b, e + 2, groups + 1)
            }
        } else {
            if e + 1 < b.len() && !(b[e + 1] == 58) {
                ipv6_groups(b, e + 1, groups + 1, compressed)
            } else {
                false
            }
        }
    } else {
        false
    }
}

/// Checks what follows a `::`.
fn ipv6_tail(b: &[u8], i: usize, groups: usize) -> (r: bool)
    requires
        i <= b@.len(),
        groups <= i,
    ensures
        r == sp_ipv6_tail(b@, i as int, groups as int),
    decreases b@.len() - i, 1int,
{
    if i >= b.len() {
        groups <= 7
    } else {
        ipv6_groups(b, i, groups, true)
    }
}

/// Checks an IPv6 address covering the whole text.
fn is_ipv6(b: &[u8]) -> (r: bool)
    ensures
        r == sp_ipv6(b@),
{
    if b.len() >= 2 && b[0] == 58 && b[1] == 58 {
        ipv6_tail(b, 2, 0)
    } else {
        ipv6_groups(b, 0, 0, false)
    }
}

/// The type of IP address to validate.
#[derive(Clone, Copy, Debug, PartialEq, Eq, Structural)]
pub enum IpKind {
    Any,
    V4,
    V6,
}

impl IpKind {
    /// The human-readable name of this kind.
    pub fn name(&self) -> (r: &'static str)
        ensures
            *self == IpKind::Any ==> r@ == "IP"@,
            *self == IpKind::V4 ==> r@ == "IPv4"@,
            *self == IpKind::V6 ==> r@ == "IPv6"@,
    {
        match self {
            IpKind::Any => "IP",
            IpKind::V4 => "IPv4",
            IpKind::V6 => "IPv6",
        }
    }
}

/// Whether a text is an address of the given kind.
pub open spec fn sp_ip_ok(kind: IpKind, b: Seq<u8>) -> bool {
    match kind {
        IpKind::Any => sp_ipv4(b) || sp_ipv6(b),
        IpKind::V4 => sp_ipv4(b),
        IpKind::V6 => sp_ipv6(b),
    }
}

/// Validates that a string is a valid IP address of the chosen kind.
#[derive(Debug, Clone)]
pub struct IpValidation<T: StringLike> {
    /// The type of IP address to validate.
    pub kind: IpKind,
    /// The string being validated (stored for error context).
    pub actual: T,
}

/// Builder for [`IpValidation`].
pub struct IpValidationBuilder<T: StringLike> {
    pub kind: Option<IpKind>,
    pub actual: Option<T>,
}

impl<T: StringLike> IpValidation<T> {
    /// Starts building an IP validator.
    pub fn builder() -> (r: IpValidationBuilder<T>)
        ensures
            r.kind is None && r.actual is None,
    {
        IpValidationBuilder { kind: None, actual: None }
    }
}

impl<T: StringLike> IpValidationBuilder<T> {
    /// Sets the kind of address to accept.
    pub fn kind(self, kind: IpKind) -> (r: Self)
        ensures
            r.kind == Some(kind) && r.actual == self.actual,
    {
        IpValidationBuilder { kind: Some(kind), ..self }
    }

    /// Sets the value under validation.
    pub fn actual(self, actual: T) -> (r: Self)
        ensures
            r.actual == Some(actual) && r.kind == self.kind,
    {
        IpValidationBuilder { actual: Some(actual), ..self }
    }

    /// Sets the value under validation through the uniform name.
    pub fn with_value(self, value: T) -> (r: Self)
        ensures
            r.actual == Some(value) && r.kind == self.kind,
    {
        self.actual(value)
    }

    /// Finishes the builder; the kind and the value must be set.
    pub fn build(self) -> (r: IpValidation<T>)
        requires
            self.kind is Some,
            self.actual is Some,
        ensures
            r.kind == self.kind->Some_0 && r.actual == self.actual->Some_0,
    {
        match self {
            IpValidationBuilder { kind: Some(kind), actual: Some(actual) } => IpValidation {
                kind,
                actual,
            },
            _ => unreached(),
        }
    }
}

impl<T: StringLike> BuilderWithValue<T> for IpValidationBuilder<T> {
    fn with_value(self, value: T) -> Self {
        self.actual(value)
    }
}

impl<T: StringLike> Validate<T> for IpValidation<T> {
    /// Passes exactly when the value is an address of the chosen kind.
    fn validate(&self, value: &T) -> (r: KorumaResult)
        ensures
            r is Ok <==> sp_ip_ok(self.kind, crate::validators::string::sp_bytes(
                value.spec_str(),
            )),
    {
        let bytes = value.as_text().as_bytes();
        let ok = match self.kind {
            IpKind::Any => is_ipv4(bytes) || is_ipv6(bytes),
            IpKind::V4 => is_ipv4(bytes),
            IpKind::V6 => is_ipv6(bytes),
        };
        if ok {
            Ok(())
        } else {
            Err(())
        }
    }
}

/// A character allowed in the local part of an email address.
pub open spec fn sp_is_user_char(b: u8) -> bool {
    ||| sp_is_alnum(b)
    ||| b == 46  // .
    ||| b == 33  // !
    ||| b == 35  // #
    ||| b == 36  // $
    ||| b == 37  // %
    ||| b == 38  // &
    ||| b == 39  // '
    ||| b == 42  // *
    ||| b == 43  // +
    ||| b == 47  // /
    ||| b == 61  // =
    ||| b == 63  // ?
    ||| b == 94  // ^
    ||| b == 95  // _
    ||| b == 96  // `
    ||| b == 123  // {
    ||| b == 124  // |
    ||| b == 125  // }
    ||| b == 126  // ~
    ||| b == 45  // -
}

/// The end of the label-character run (letters, digits, hyphens) at `i`.
pub open spec fn sp_label_end(b: Seq<u8>, i: int) -> int
    decreases b.len() - i,
{
    if 0 <= i < b.len() && (sp_is_alnum(b[i]) || b[i] == 45) {
        sp_label_end(b, i + 1)
    } else {
        i
    }
}

/// Dot-separated host labels from `i` to the end: each label is one to 63
/// letters, digits or hyphens, starting and ending with a letter or
/// digit.
pub open spec fn sp_domain_labels(b: Seq<u8>, i: int) -> bool
    decreases b.len() - i,
{
    if !(0 <= i < b.len()) {
        false
    } else {
        let e = sp_label_end(b, i);
        if !(i < e && e - i <= 63 && sp_is_alnum(b[i]) && sp_is_alnum(b[e - 1])) {
            false
        } else if e == b.len() {
            true
        } else {
            e < b.len() && b[e] == 46 && i < e && sp_domain_labels(b, e + 1)
        }
    }
}

/// A valid email address: one `@`; a non-empty local part of at most 64
/// allowed characters; a domain of at most 255 bytes that is either
/// dot-separated host labels or a bracketed IP address.
pub open spec fn sp_email(b: Seq<u8>) -> bool {
    exists|a: int|
        {
            &&& 0 <= a < b.len()
            &&& #[trigger] b[a] == 64
            &&& forall|k: int| 0 <= k < a ==> #[trigger] b[k] != 64
            &&& {
                let user = b.subrange(0, a);
                let dom = b.subrange(a + 1, b.len() as int);
                &&& 1 <= user.len() <= 64
                &&& dom.len() >= 1
                &&& dom.len() <= 255
                &&& (forall|k: int| 0 <= k < dom.len() ==> #[trigger] dom[k] != 64)
                &&& (forall|k: int| 0 <= k < user.len() ==> sp_is_user_char(#[trigger] user[k]))
                &&& (sp_domain_labels(dom, 0) || (dom.len() >= 2 && dom[0] == 91 && dom[dom.len()
                    - 1] == 93 && {
                    let inner = dom.subrange(1, dom.len() - 1);
                    sp_ipv4(inner) || sp_ipv6(inner)
                }))
            }
        }
}

/// The end of the label-character run at `i`.
fn label_end(b: &[u8], i: usize) -> (r: usize)
    requires
        i <= b@.len(),
    ensures
        r == sp_label_end(b@, i as int),
        i <= r <= b@.len(),
{
    let mut j = i;
    let mut stop = false;
    while !stop
        invariant
            i <= j <= b@.len(),
            sp_label_end(b@, i as int) == sp_label_end(b@, j as int),
            stop ==> !(j < b@.len() && (sp_is_alnum(b@[j as int]) || b@[j as int] == 45)),
        decreases b@.len() - j + (if stop { 0int } else { 1int }),
    {
        if j < b.len() && ((b[j] >= 48 && b[j] <= 57) || (b[j] >= 97 && b[j] <= 122) || (b[j]
            >= 65 && b[j] <= 90) || b[j] == 45) {
            j = j + 1;
        } else {
            stop = true;
        }
    }
    j
}

/// Checks dot-separated host labels from `i` to the end.
fn domain_labels(b: &[u8], i: usize) -> (r: bool)
    requires
        i <= b@.len(),
    ensures
        r == sp_domain_labels(b@, i as int),
    decreases b@.len() - i,
{
    if i >= b.len() {
        return false;
    }
    let e = label_end(b, i);
    let first = b[i];
    let first_ok = (first >= 48 && first <= 57) || (first >= 97 && first <= 122) || (first >= 65
        && first <= 90);
    if !(i < e && e - i <= 63 && first_ok) {
        return false;
    }
    let last = b[e - 1];
    let last_ok = (last >= 48 && last <= 57) || (last >= 97 && last <= 122) || (last >= 65 && last
        <= 90);
    if !last_ok {
        return false;
    }
    if e == b.len() {
        true
    } else {
        if b[e] == 46 {
            domain_labels(b, e + 1)
        } else {
            false
        }
    }
}

/// Validates that a string is a valid email address.
#[derive(Debug, Clone)]
pub struct EmailValidation<T: StringLike> {
    /// The string being validated (stored for error context).
    pub actual: T,
}

/// Builder for the one-field format validators over strings.
pub struct FormatValidationBuilder<T: StringLike> {
    pub actual: Option<T>,
}

impl<T: StringLike> FormatValidationBuilder<T> {
    /// Sets the value under validation.
    pub fn actual(self, actual: T) -> (r: Self)
        ensures
            r.actual == Some(actual),
    {
        FormatValidationBuilder { actual: Some(actual) }
    }

    /// Sets the value under validation through the uniform name.
    pub fn with_value(self, value: T) -> (r: Self)
        ensures
            r.actual == Some(value),
    {
        self.actual(value)
    }

    /// Finishes as an email validator; the value must be set.
    pub fn build_email(self) -> (r: EmailValidation<T>)
        requires
            self.actual is Some,
        ensures
            r.actual == self.actual->Some_0,
    {
        match self {
            FormatValidationBuilder { actual: Some(actual) } => EmailValidation { actual },
            _ => unreached(),
        }
    }

    /// Finishes as a credit-card validator; the value must be set.
    pub fn build_credit_card(self) -> (r: CreditCardValidation<T>)
        requires
            self.actual is Some,
        ensures
            r.actual == self.actual->Some_0,
    {
        match self {
            FormatValidationBuilder { actual: Some(actual) } => CreditCardValidation { actual },
            _ => unreached(),
        }
    }

    /// Finishes as a phone-number validator; the value must be set.
    pub fn build_phone_number(self) -> (r: PhoneNumberValidation<T>)
        requires
            self.actual is Some,
        ensures
            r.actual == self.actual->Some_0,
    {
        match self {
            FormatValidationBuilder { actual: Some(actual) } => PhoneNumberValidation { actual },
            _ => unreached(),
        }
    }

    /// Finishes as a URL validator; the value must be set.
    pub fn build_url(self) -> (r: UrlValidation<T>)
        requires
            self.actual is Some,
        ensures
            r.actual == self.actual->Some_0,
    {
        match self {
            FormatValidationBuilder { actual: Some(actual) } => UrlValidation { actual },
            _ => unreached(),
        }
    }
}

impl<T: StringLike> BuilderWithValue<T> for FormatValidationBuilder<T> {
    fn with_value(self, value: T) -> Self {
        self.actual(value)
    }
}

impl<T: StringLike> EmailValidation<T> {
    /// Starts building an email validator.
    pub fn builder() -> (r: FormatValidationBuilder<T>)
        ensures
            r.actual is None,
    {
        FormatValidationBuilder { actual: None }
    }
}

impl<T: StringLike> Validate<T> for EmailValidation<T> {
    /// Passes exactly when the value is a valid email address.
    fn validate(&self, value: &T) -> (r: KorumaResult)
        ensures
            r is Ok <==> sp_email(crate::validators::string::sp_bytes(value.spec_str())),
    {
        let b = value.as_text().as_bytes();
        // the first `@`, if any
        let mut a: usize = 0;
        let mut found = false;
        while a < b.len() && !found
            invariant
                0 <= a <= b@.len(),
                found ==> a < b@.len() && b@[a as int] == 64,
                forall|k: int| 0 <= k < a ==> b@[k] != 64,
            decreases b@.len() - a + (if found { 0int } else { 1int }),
        {
            if b[a] == 64 {
                found = true;
            } else {
                a = a + 1;
            }
        }
        if !found {
            proof {
                if sp_email(b@) {
                    let w = choose|w: int|
                        0 <= w < b@.len() && #[trigger] b@[w] == 64 && (forall|k: int|
                            0 <= k < w ==> #[trigger] b@[k] != 64) && true;
                }
            }
            return Err(());
        }
        let user_len = a;
        let dom_len = b.len() - a - 1;
        let ghost user = b@.subrange(0, a as int);
        let ghost dom = b@.subrange(a + 1, b@.len() as int);
        // any further `@` in the domain?
        let mut k: usize = a + 1;
        let mut second_at = false;
        while k < b.len()
            invariant
                a + 1 <= k <= b@.len(),
                a < b@.len(),
                second_at == exists|m: int| a + 1 <= m < k && b@[m] == 64,
            decreases b@.len() - k,
        {
            if b[k] == 64 {
                second_at = true;
            }
            k = k + 1;
        }
        // the local part: non-empty, bounded, allowed characters only
        let mut u: usize = 0;
        let mut user_ok = user_len >= 1 && user_len <= 64 && !second_at;
        while u < a
            invariant
                0 <= u <= a <= b@.len(),
                user_ok ==> forall|m: int| 0 <= m < u ==> sp_is_user_char(b@[m]),
                (user_len >= 1 && user_len <= 64 && !second_at) ==> (user_ok == (forall|m: int|
                    0 <= m < u ==> sp_is_user_char(b@[m]))),
                !(user_len >= 1 && user_len <= 64 && !second_at) ==> !user_ok,
            decreases a - u,
        {
            let c = b[u];
            let c_ok = (c >= 48 && c <= 57) || (c >= 97 && c <= 122) || (c >= 65 && c <= 90) || c
                == 46 || c == 33 || c == 35 || c == 36 || c == 37 || c == 38 || c == 39 || c == 42
                || c == 43 || c == 47 || c == 61 || c == 63 || c == 94 || c == 95 || c == 96 || c
                == 123 || c == 124 || c == 125 || c == 126 || c == 45;
            if !c_ok {
                user_ok = false;
            }
            u = u + 1;
        }
        let dom_ok = if dom_len < 1 || dom_len > 255 {
            false
        } else {
            let dom_slice = slice_tail(b, a + 1);
            if domain_labels(dom_slice, 0) {
                true
            } else if dom_len >= 2 && b[a + 1] == 91 && b[b.len() - 1] == 93 {
                let inner = slice_mid(b, a + 2, b.len() - 1);
                is_ipv4(inner) || is_ipv6(inner)
            } else {
                false
            }
        };
        let ok = user_ok && dom_ok;
        proof {
            let bb = b@;
            let aa = a as int;
            assert(user.len() == aa);
            assert(dom.len() == bb.len() - aa - 1);
            assert forall|m: int| 0 <= m < user.len() implies user[m] == bb[m] by {}
            assert forall|m: int| 0 <= m < dom.len() implies dom[m] == bb[aa + 1 + m] by {}
            if ok {
                assert(forall|k2: int| 0 <= k2 < dom.len() ==> #[trigger] dom[k2] != 64);
                assert(forall|k2: int|
                    0 <= k2 < user.len() ==> sp_is_user_char(#[trigger] user[k2]));
                if dom.len() >= 2 && dom[0] == 91 && dom[dom.len() - 1] == 93 {
                    assert(dom.subrange(1, dom.len() - 1) =~= bb.subrange(
                        aa + 2,
                        bb.len() - 1,
                    ));
                }
                assert(sp_email(bb));
            } else {
                if sp_email(bb) {
                    let w = choose|w: int|
                        0 <= w < bb.len() && #[trigger] bb[w] == 64 && (forall|k2: int|
                            0 <= k2 < w ==> #[trigger] bb[k2] != 64) && {
                            let user2 = bb.subrange(0, w);
                            let dom2 = bb.subrange(w + 1, bb.len() as int);
                            &&& 1 <= user2.len() <= 64
                            &&& dom2.len() >= 1
                            &&& dom2.len() <= 255
                            &&& (forall|k2: int| 0 <= k2 < dom2.len() ==> #[trigger] dom2[k2] != 64)
                            &&& (forall|k2: int|
                                0 <= k2 < user2.len() ==> sp_is_user_char(#[trigger] user2[k2]))
                            &&& (sp_domain_labels(dom2, 0) || (dom2.len() >= 2 && dom2[0] == 91
                                && dom2[dom2.len() - 1] == 93 && {
                                let inner = dom2.subrange(1, dom2.len() - 1);
                                sp_ipv4(inner) || sp_ipv6(inner)
                            }))
                        };
                    assert(w == aa) by {
                        if w < aa {
                            assert(bb[w] != 64);
                        } else if w > aa {
                            assert(bb[aa] != 64);
                        }
                    }
                    assert(bb.subrange(w + 1, bb.len() as int) =~= dom);
                    assert(bb.subrange(0, w) =~= user);
                    // the witness forces every piece the run checked
                    assert(!second_at) by {
                        if second_at {
                            let m = choose|m: int| aa + 1 <= m < bb.len() && bb[m] == 64;
                            assert(dom[m - aa - 1] == bb[m]);
                        }
                    }
                    assert(user_ok) by {
                        assert forall|m: int| 0 <= m < aa implies sp_is_user_char(bb[m]) by {
                            assert(user[m] == bb[m]);
                        }
                    }
                    assert(dom_ok) by {
                        if dom.len() >= 2 && dom[0] == 91 && dom[dom.len() - 1] == 93 {
                            assert(dom.subrange(1, dom.len() - 1) =~= bb.subrange(
                                aa + 2,
                                bb.len() - 1,
                            ));
                        }
                    }
                    assert(false);
                }
            }
        }
        if ok {
            Ok(())
        } else {
            Err(())
        }
    }
}

/// The tail of a byte slice from `i` on.
fn slice_tail<'a>(b: &'a [u8], i: usize) -> (r: &'a [u8])
    requires
        i <= b@.len(),
    ensures
        r@ == b@.subrange(i as int, b@.len() as int),
{
    slice_mid(b, i, b.len())
}

/// The bytes of a slice between `i` and `j`.
fn slice_mid<'a>(b: &'a [u8], i: usize, j: usize) -> (r: &'a [u8])
    requires
        i <= j <= b@.len(),
    ensures
        r@ == b@.subrange(i as int, j as int),
{
    vstd::slice::slice_subrange(b, i, j)
}

/// Whether a text is a valid credit card number, as the card checker
/// decides it.
pub uninterp spec fn card_valid_of(s: Seq<char>) -> bool;

/// Relies on card-validate's `Validate::from`: whether the evaluation
/// succeeds depends on the characters of the input alone.
#[verifier::external_body]
fn card_is_valid(s: &str) -> (r: bool)
    ensures
        r == card_valid_of(s@),
{
    card_validate::Validate::from(s).is_ok()
}

/// Validates that a string is a valid credit card number.
#[derive(Debug, Clone)]
pub struct CreditCardValidation<T: StringLike> {
    /// The string being validated (stored for error context).
    pub actual: T,
}

impl<T: StringLike> CreditCardValidation<T> {
    /// Starts building a credit-card validator.
    pub fn builder() -> (r: FormatValidationBuilder<T>)
        ensures
            r.actual is None,
    {
        FormatValidationBuilder { actual: None }
    }
}

impl<T: StringLike> Validate<T> for CreditCardValidation<T> {
    /// Passes exactly when the card checker accepts the value.
    fn validate(&self, value: &T) -> (r: KorumaResult)
        ensures
            r is Ok <==> card_valid_of(value.spec_str()),
    {
        if card_is_valid(value.as_text()) {
            Ok(())
        } else {
            Err(())
        }
    }
}

/// Whether a text is a valid phone number, as the phone-number library
/// with its built-in metadata decides it.
pub uninterp spec fn phone_valid_of(s: Seq<char>) -> bool;

/// Relies on phonenumber's `PhoneNumber::from_str` and `is_valid`: both
/// consult only the input and metadata built into the library, so the
/// outcome depends on the characters of the input alone.
#[verifier::external_body]
fn phone_is_valid(s: &str) -> (r: bool)
    ensures
        r == phone_valid_of(s@),
{
    match <phonenumber::PhoneNumber as core::str::FromStr>::from_str(s) {
        Ok(number) => number.is_valid(),
        Err(_) => false,
    }
}

/// Validates that a string is a valid phone number.
#[derive(Debug, Clone)]
pub struct PhoneNumberValidation<T: StringLike> {
    /// The string being validated (stored for error context).
    pub actual: T,
}

impl<T: StringLike> PhoneNumberValidation<T> {
    /// Starts building a phone-number validator.
    pub fn builder() -> (r: FormatValidationBuilder<T>)
        ensures
            r.actual is None,
    {
        FormatValidationBuilder { actual: None }
    }
}

impl<T: StringLike> Validate<T> for PhoneNumberValidation<T> {
    /// Passes exactly when the phone-number library accepts the value.
    fn validate(&self, value: &T) -> (r: KorumaResult)
        ensures
            r is Ok <==> phone_valid_of(value.spec_str()),
    {
        if phone_is_valid(value.as_text()) {
            Ok(())
        } else {
            Err(())
        }
    }
}

/// Whether a text parses as a URL, as the URL parser decides it.
pub uninterp spec fn url_ok_of(s: Seq<char>) -> bool;

/// Relies on url's `Url::parse`: whether parsing succeeds depends on the
/// characters of the input alone.
#[verifier::external_body]
fn url_parses(s: &str) -> (r: bool)
    ensures
        r == url_ok_of(s@),
{
    url::Url::parse(s).is_ok()
}

/// Validates that a string parses as a URL.
#[derive(Debug, Clone)]
pub struct UrlValidation<T: StringLike> {
    /// The string being validated (stored for error context).
    pub actual: T,
}

impl<T: StringLike> UrlValidation<T> {
    /// Starts building a URL validator.
    pub fn builder() -> (r: FormatValidationBuilder<T>)
        ensures
            r.actual is None,
    {
        FormatValidationBuilder { actual: None }
    }
}

impl<T: StringLike> Validate<T> for UrlValidation<T> {
    /// Passes exactly when the value parses as a URL.
    fn validate(&self, value: &T) -> (r: KorumaResult)
        ensures
            r is Ok <==> url_ok_of(value.spec_str()),
    {
        if url_parses(value.as_text()) {
            Ok(())
        } else {
            Err(())
        }
    }
}

} // verus!
