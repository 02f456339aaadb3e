//! The annotation grammar parser.
//!
//! One annotation occurrence is plain text; its grammar:
//!
//! ```text
//! annotation := "skip" | "nested" | "newtype" | item+
//! item       := "each" "(" invocation ("," invocation)* ")" | invocation
//! invocation := path ("::" "<" ("_" | type) ">")? argList?
//! path       := ident ("::" ident)*          (stops before a turbofish)
//! type       := "_" | path ("<" type ("," type)* ">")?
//! argList    := "(" (ident "=" expr ("," ident "=" expr)*)? ")"
//! ```
//!
//! Regular items are comma-separated; after an `each(...)` block the comma
//! is optional. Legacy generic syntax (`Validator<_>` without `::`) is
//! refused with a migration hint rather than silently misparsed. Only
//! ASCII text is accepted.
//!
//! Every function mirrors a specification-level parser over the string's
//! character sequence, so the accepted language and the produced model are
//! pinned down exactly.

use vstd::prelude::*;
use vstd::string::StrSliceExecFns;
use vstd::string::StringExecFns;

use crate::ast::{
    ArgPair, ArgPairV, KorumaAttr, KorumaAttrV, StructOptions, SyntaxError, SyntaxErrorKind,
    TypeExpr, TypeExprV, ValidatorAttr, ValidatorAttrV,
};

verus! {

/// The model of a syntax error: a position and what was wrong there.
pub enum SyntaxErrorV {
    NonAscii,
    ExpectedIdent { pos: int },
    ExpectedChar { pos: int, expected: char },
    ExpectedExpr { pos: int },
    UnexpectedEnd { pos: int },
    LegacyGenericSyntax { pos: int },
    TrailingInput { pos: int },
    UnknownStructOption { pos: int, name: Seq<char> },
}

impl View for SyntaxError {
    type V = SyntaxErrorV;

    open spec fn view(&self) -> SyntaxErrorV {
        match self.kind {
            SyntaxErrorKind::NonAscii => SyntaxErrorV::NonAscii,
            SyntaxErrorKind::ExpectedIdent => SyntaxErrorV::ExpectedIdent {
                pos: self.position as int,
            },
            SyntaxErrorKind::ExpectedChar { expected } => SyntaxErrorV::ExpectedChar {
                pos: self.position as int,
                expected,
            },
            SyntaxErrorKind::ExpectedExpr => SyntaxErrorV::ExpectedExpr {
                pos: self.position as int,
            },
            SyntaxErrorKind::UnexpectedEnd => SyntaxErrorV::UnexpectedEnd {
                pos: self.position as int,
            },
            SyntaxErrorKind::LegacyGenericSyntax => SyntaxErrorV::LegacyGenericSyntax {
                pos: self.position as int,
            },
            SyntaxErrorKind::TrailingInput => SyntaxErrorV::TrailingInput {
                pos: self.position as int,
            },
            SyntaxErrorKind::UnknownStructOption { ref name } => SyntaxErrorV::UnknownStructOption {
                pos: self.position as int,
                name: name@,
            },
        }
    }
}

/// Whitespace accepted between tokens.
pub open spec fn spec_is_ws(c: char) -> bool {
    c == ' ' || c == '\t' || c == '\n' || c == '\r'
}

/// A character that may start an identifier.
pub open spec fn spec_is_ident_start(c: char) -> bool {
    ('a' <= c && c <= 'z') || ('A' <= c && c <= 'Z') || c == '_'
}

/// A character that may continue an identifier.
pub open spec fn spec_is_ident_char(c: char) -> bool {
    spec_is_ident_start(c) || ('0' <= c && c <= '9')
}

/// The first index at or after `i` holding a non-whitespace character.
pub open spec fn sp_ws(s: Seq<char>, i: int) -> int
    decreases s.len() - i,
{
    if 0 <= i < s.len() && spec_is_ws(s[i]) {
        sp_ws(s, i + 1)
    } else {
        i
    }
}

/// The end of the identifier-character run starting at `i`.
pub open spec fn sp_ident_end(s: Seq<char>, i: int) -> int
    decreases s.len() - i,
{
    if 0 <= i < s.len() && spec_is_ident_char(s[i]) {
        sp_ident_end(s, i + 1)
    } else {
        i
    }
}

/// The identifier at `i`, if one starts there: its text and end position.
pub open spec fn sp_ident(s: Seq<char>, i: int) -> Option<(Seq<char>, int)> {
    if 0 <= i < s.len() && spec_is_ident_start(s[i]) {
        Some((s.subrange(i, sp_ident_end(s, i + 1)), sp_ident_end(s, i + 1)))
    } else {
        None
    }
}



/// Reads the character at position `i` of an ASCII string as its byte.
fn byte_at(s: &str, i: usize) -> (b: u8)
    requires
        s.is_ascii(),
        i < s@.len(),
    ensures
        b == s@[i as int] as u8,
        s@[i as int] == b as char,
        b < 128,
{
    let b = s.get_ascii(i);
    proof {
        assert('\0' <= s@[i as int] <= '\u{7f}');
    }
    b
}

/// A cursor over an ASCII string: the text and its character count.
struct Cursor<'a> {
    s: &'a str,
    n: usize,
}

impl<'a> Cursor<'a> {
    spec fn wf(self) -> bool {
        &&& self.s.is_ascii()
        &&& self.n == self.s@.len()
    }

    spec fn text(self) -> Seq<char> {
        self.s@
    }

    fn new(s: &'a str) -> (r: Cursor<'a>)
        requires
            s.is_ascii(),
        ensures
            r.wf(),
            r.text() == s@,
    {
        let n = s.unicode_len();
        Cursor { s, n }
    }

    /// Skips whitespace from `i`.
    fn skip_ws(&self, i: usize) -> (r: usize)
        requires
            self.wf(),
            i <= self.n,
        ensures
            r == sp_ws(self.text(), i as int),
            i <= r <= self.n,
    {
        let mut j = i;
        let mut stop = false;
        while !stop
            invariant
                self.wf(),
                i <= j <= self.n,
                sp_ws(self.text(), i as int) == sp_ws(self.text(), j as int),
                stop ==> !(j < self.n && spec_is_ws(self.text()[j as int])),
            decreases self.n - j + (if stop { 0int } else { 1int }),
        {
            if j < self.n {
                let b = byte_at(self.s, j);
                if b == 32 || b == 9 || b == 10 || b == 13 {
                    j = j + 1;
                } else {
                    stop = true;
                }
            } else {
                stop = true;
            }
        }
        j
    }

    /// Scans the identifier starting at `i`, if any.
    fn scan_ident(&self, i: usize) -> (r: Option<(String, usize)>)
        requires
            self.wf(),
            i <= self.n,
        ensures
            match r {
                Some((text, end)) => {
                    &&& sp_ident(self.text(), i as int) == Some((text@, end as int))
                    &&& i < end <= self.n
                },
                None => sp_ident(self.text(), i as int) is None,
            },
    {
        if i >= self.n {
            return None;
        }
        let b = byte_at(self.s, i);
        if !((b >= 97 && b <= 122) || (b >= 65 && b <= 90) || b == 95) {
            return None;
        }
        let mut j = i + 1;
        let mut stop = false;
        while !stop
            invariant
                self.wf(),
                i + 1 <= j <= self.n,
                sp_ident_end(self.text(), i + 1) == sp_ident_end(self.text(), j as int),
                stop ==> !(j < self.n && spec_is_ident_char(self.text()[j as int])),
            decreases self.n - j + (if stop { 0int } else { 1int }),
        {
            if j < self.n {
                let c = byte_at(self.s, j);
                if (c >= 97 && c <= 122) || (c >= 65 && c <= 90) || (c >= 48 && c <= 57) || c
                    == 95 {
                    j = j + 1;
                } else {
                    stop = true;
                }
            } else {
                stop = true;
            }
        }
        let text = self.s.substring_ascii(i, j).to_owned();
        Some((text, j))
    }

    /// Whether the character at `i` is `c` (an ASCII literal).
    fn at_is(&self, i: usize, c: char) -> (r: bool)
        requires
            self.wf(),
            '\0' <= c <= '\u{7f}',
        ensures
            r == (i < self.text().len() && self.text()[i as int] == c),
    {
        if i < self.n {
            let b = byte_at(self.s, i);
            b == c as u8
        } else {
            false
        }
    }

    /// Whether `::` stands at `i`.
    fn at_colons(&self, i: usize) -> (r: bool)
        requires
            self.wf(),
        ensures
            r == sp_at_colons(self.text(), i as int),
    {
        self.at_is(i, ':') && i < self.n && self.at_is(i + 1, ':')
    }
}

/// Whether `::` stands at `i`.
pub open spec fn sp_at_colons(s: Seq<char>, i: int) -> bool {
    i + 1 < s.len() && s[i] == ':' && s[i + 1] == ':'
}

/// The qualifier text of a path prefix: each segment followed by `::`.
pub open spec fn sp_join_qual(segs: Seq<Seq<char>>) -> Seq<char>
    decreases segs.len(),
{
    if segs.len() == 0 {
        Seq::empty()
    } else {
        sp_join_qual(segs.drop_last()) + segs.last() + "::"@
    }
}

/// A path: the segments read so far continued from position `i` (the end
/// of the previous identifier). Consumes `:: ident` pairs; stops, without
/// consuming the `::`, when what follows it is not an identifier.
pub open spec fn sp_path_more(s: Seq<char>, i: int, acc: Seq<Seq<char>>) -> (Seq<Seq<char>>, int)
    decreases s.len() - i,
{
    let j = sp_ws(s, i);
    if sp_at_colons(s, j) {
        let k = sp_ws(s, j + 2);
        match sp_ident(s, k) {
            Some((t, e)) => if i < e <= s.len() {
                sp_path_more(s, e, acc.push(t))
            } else {
                (acc, i)
            },
            None => (acc, i),
        }
    } else {
        (acc, i)
    }
}

/// A validator path at `i`: one identifier, then `:: ident` pairs.
pub open spec fn sp_path(s: Seq<char>, i: int) -> Result<(Seq<Seq<char>>, int), SyntaxErrorV> {
    let i0 = sp_ws(s, i);
    match sp_ident(s, i0) {
        Some((t, e)) => Ok(sp_path_more(s, e, seq![t])),
        None => Err(SyntaxErrorV::ExpectedIdent { pos: i0 }),
    }
}

/// The named type for parsed segments and arguments; a lone `_` with no
/// arguments is the inference placeholder.
pub open spec fn sp_mk_type(segs: Seq<Seq<char>>, args: Seq<TypeExprV>) -> TypeExprV {
    if segs.len() == 1 && segs[0] == "_"@ && args.len() == 0 {
        TypeExprV::Placeholder
    } else {
        TypeExprV::Named { qualifier: sp_join_qual(segs.drop_last()), name: segs.last(), args }
    }
}

/// A type expression at `i`.
pub open spec fn sp_type(s: Seq<char>, i: int) -> Result<(TypeExprV, int), SyntaxErrorV>
    decreases s.len() - i, 1int,
{
    let i0 = sp_ws(s, i);
    match sp_ident(s, i0) {
        Some((t, e)) => if i <= i0 && i0 < e <= s.len() {
            sp_type_more(s, e, seq![t])
        } else {
            Err(SyntaxErrorV::ExpectedIdent { pos: i0 })
        },
        None => Err(SyntaxErrorV::ExpectedIdent { pos: i0 }),
    }
}

/// A type continued after a path segment ending at `i`: more `:: ident`
/// segments, then optional generic arguments written `<..>` or `::<..>`.
pub open spec fn sp_type_more(s: Seq<char>, i: int, segs: Seq<Seq<char>>) -> Result<
    (TypeExprV, int),
    SyntaxErrorV,
>
    decreases s.len() - i, 2int,
{
    let j = sp_ws(s, i);
    if sp_at_colons(s, j) {
        let k = sp_ws(s, j + 2);
        if k < s.len() && s[k] == '<' {
            if i < k {
                sp_type_args(s, k, segs)
            } else {
                Err(SyntaxErrorV::ExpectedIdent { pos: k })
            }
        } else {
            match sp_ident(s, k) {
                Some((t, e)) => if i < e <= s.len() {
                    sp_type_more(s, e, segs.push(t))
                } else {
                    Err(SyntaxErrorV::ExpectedIdent { pos: k })
                },
                None => Err(SyntaxErrorV::ExpectedIdent { pos: k }),
            }
        }
    } else if j < s.len() && s[j] == '<' {
        if i <= j {
            sp_type_args(s, j, segs)
        } else {
            Err(SyntaxErrorV::ExpectedIdent { pos: j })
        }
    } else {
        Ok((sp_mk_type(segs, Seq::empty()), i))
    }
}

/// Generic arguments from the `<` at `j`: an empty list, or types
/// separated by commas, closed by `>`.
pub open spec fn sp_type_args(s: Seq<char>, j: int, segs: Seq<Seq<char>>) -> Result<
    (TypeExprV, int),
    SyntaxErrorV,
>
    decreases s.len() - j, 0int,
{
    let m = sp_ws(s, j + 1);
    if m < s.len() && s[m] == '>' {
        Ok((sp_mk_type(segs, Seq::empty()), m + 1))
    } else if j + 1 <= s.len() {
        match sp_type_list(s, j + 1) {
            Ok((args, e)) => Ok((sp_mk_type(segs, args), e)),
            Err(err) => Err(err),
        }
    } else {
        Err(SyntaxErrorV::UnexpectedEnd { pos: s.len() as int })
    }
}

/// The position right after the closing quote of a string literal whose
/// opening quote stands before `i`; backslash escapes one character.
pub open spec fn sp_str_end(s: Seq<char>, i: int) -> Result<int, SyntaxErrorV>
    decreases s.len() - i,
{
    if !(0 <= i < s.len()) {
        Err(SyntaxErrorV::UnexpectedEnd { pos: s.len() as int })
    } else if s[i] == '"' {
        Ok(i + 1)
    } else if s[i] == '\\' {
        if i + 2 <= s.len() {
            sp_str_end(s, i + 2)
        } else {
            Err(SyntaxErrorV::UnexpectedEnd { pos: s.len() as int })
        }
    } else {
        sp_str_end(s, i + 1)
    }
}

/// The position where the raw argument expression starting at `i` stops:
/// the first `,` or `)` outside brackets and string literals.
pub open spec fn sp_expr_end(s: Seq<char>, i: int, depth: int) -> Result<int, SyntaxErrorV>
    decreases s.len() - i,
{
    if !(0 <= i < s.len()) {
        Err(SyntaxErrorV::UnexpectedEnd { pos: s.len() as int })
    } else if depth == 0 && (s[i] == ',' || s[i] == ')') {
        Ok(i)
    } else if s[i] == '(' || s[i] == '[' || s[i] == '{' {
        sp_expr_end(s, i + 1, depth + 1)
    } else if s[i] == ')' || s[i] == ']' || s[i] == '}' {
        sp_expr_end(s, i + 1, if depth > 0 { depth - 1 } else { 0 })
    } else if s[i] == '"' {
        match sp_str_end(s, i + 1) {
            Ok(e) => if i < e <= s.len() {
                sp_expr_end(s, e, depth)
            } else {
                Err(SyntaxErrorV::UnexpectedEnd { pos: s.len() as int })
            },
            Err(err) => Err(err),
        }
    } else {
        sp_expr_end(s, i + 1, depth)
    }
}

/// The first non-whitespace position in `a..b`, or `b`.
pub open spec fn sp_trim_start(s: Seq<char>, a: int, b: int) -> int
    decreases b - a,
{
    if a < b && 0 <= a < s.len() && spec_is_ws(s[a]) {
        sp_trim_start(s, a + 1, b)
    } else {
        a
    }
}

/// The position after the last non-whitespace character in `a..b`, or `a`.
pub open spec fn sp_trim_end(s: Seq<char>, a: int, b: int) -> int
    decreases b - a,
{
    if a < b && 0 <= b - 1 < s.len() && spec_is_ws(s[b - 1]) {
        sp_trim_end(s, a, b - 1)
    } else {
        b
    }
}

/// The argument pairs from position `i` (after the opening parenthesis) to
/// the closing one; the returned position stands after the `)`.
pub open spec fn sp_args_items(s: Seq<char>, i: int) -> Result<(Seq<ArgPairV>, int), SyntaxErrorV>
    decreases s.len() - i,
{
    let j = sp_ws(s, i);
    if j < s.len() && s[j] == ')' {
        Ok((Seq::empty(), j + 1))
    } else {
        match sp_ident(s, j) {
            None => Err(SyntaxErrorV::ExpectedIdent { pos: j }),
            Some((name, e)) => {
                let j2 = sp_ws(s, e);
                if j2 < s.len() && s[j2] == '=' {
                    match sp_expr_end(s, j2 + 1, 0) {
                        Err(err) => Err(err),
                        Ok(stop) => {
                            let a = sp_trim_start(s, j2 + 1, stop);
                            let b = sp_trim_end(s, a, stop);
                            if a >= b {
                                Err(SyntaxErrorV::ExpectedExpr { pos: j2 + 1 })
                            } else {
                                let pair = ArgPairV { name, value: s.subrange(a, b) };
                                if stop < s.len() && s[stop] == ',' {
                                    if i < stop + 1 <= s.len() {
                                        match sp_args_items(s, stop + 1) {
                                            Ok((rest, e2)) => Ok((seq![pair] + rest, e2)),
                                            Err(err) => Err(err),
                                        }
                                    } else {
                                        Err(SyntaxErrorV::UnexpectedEnd { pos: s.len() as int })
                                    }
                                } else if stop < s.len() && s[stop] == ')' {
                                    Ok((seq![pair], stop + 1))
                                } else {
                                    Err(SyntaxErrorV::ExpectedChar { pos: stop, expected: ')' })
                                }
                            }
                        },
                    }
                } else {
                    Err(SyntaxErrorV::ExpectedChar { pos: j2, expected: '=' })
                }
            },
        }
    }
}

/// One validator invocation at `i`: a path, an optional turbofish type
/// parameter, and an optional argument list. Plain `<` after the path is
/// the legacy generic syntax and is refused.
pub open spec fn sp_invocation(s: Seq<char>, i: int) -> Result<
    (ValidatorAttrV, int),
    SyntaxErrorV,
> {
    match sp_path(s, i) {
        Err(err) => Err(err),
        Ok((segs, p)) => {
            let j = sp_ws(s, p);
            if j < s.len() && s[j] == '<' {
                Err(SyntaxErrorV::LegacyGenericSyntax { pos: j })
            } else {
                let has_turbofish = sp_at_colons(s, j) && {
                    let k = sp_ws(s, j + 2);
                    k < s.len() && s[k] == '<'
                };
                if has_turbofish {
                    let k = sp_ws(s, j + 2);
                    match sp_type(s, k + 1) {
                        Err(err) => Err(err),
                        Ok((tv, e)) => {
                            let j3 = sp_ws(s, e);
                            if j3 < s.len() && s[j3] == '>' {
                                sp_invocation_args(s, segs, tv is Placeholder, if tv
                                    is Placeholder {
                                    None
                                } else {
                                    Some(tv)
                                }, j3 + 1)
                            } else {
                                Err(SyntaxErrorV::ExpectedChar { pos: j3, expected: '>' })
                            }
                        },
                    }
                } else {
                    sp_invocation_args(s, segs, false, None, p)
                }
            }
        },
    }
}

/// The optional argument list closing an invocation whose path and type
/// parameter were read up to `p`.
pub open spec fn sp_invocation_args(
    s: Seq<char>,
    segs: Seq<Seq<char>>,
    infer: bool,
    explicit: Option<TypeExprV>,
    p: int,
) -> Result<(ValidatorAttrV, int), SyntaxErrorV> {
    let a = sp_ws(s, p);
    if a < s.len() && s[a] == '(' {
        match sp_args_items(s, a + 1) {
            Err(err) => Err(err),
            Ok((args, e)) => Ok(
                (
                    ValidatorAttrV {
                        validator: segs,
                        infer_type: infer,
                        explicit_type: explicit,
                        args,
                    },
                    e,
                ),
            ),
        }
    } else {
        Ok(
            (
                ValidatorAttrV {
                    validator: segs,
                    infer_type: infer,
                    explicit_type: explicit,
                    args: Seq::empty(),
                },
                p,
            ),
        )
    }
}

/// The invocations inside an `each(...)` block from `i` (after the opening
/// parenthesis); the returned position stands after the `)`.
pub open spec fn sp_each_items(s: Seq<char>, i: int) -> Result<
    (Seq<ValidatorAttrV>, int),
    SyntaxErrorV,
>
    decreases s.len() - i,
{
    let j = sp_ws(s, i);
    if j < s.len() && s[j] == ')' {
        Ok((Seq::empty(), j + 1))
    } else {
        match sp_invocation(s, j) {
            Err(err) => Err(err),
            Ok((v, e)) => {
                let j2 = sp_ws(s, e);
                if j2 < s.len() && s[j2] == ',' {
                    if i < j2 + 1 <= s.len() {
                        match sp_each_items(s, j2 + 1) {
                            Ok((rest, e2)) => Ok((seq![v] + rest, e2)),
                            Err(err) => Err(err),
                        }
                    } else {
                        Err(SyntaxErrorV::UnexpectedEnd { pos: s.len() as int })
                    }
                } else if j2 < s.len() && s[j2] == ')' {
                    Ok((seq![v], j2 + 1))
                } else {
                    Err(SyntaxErrorV::TrailingInput { pos: j2 })
                }
            },
        }
    }
}

/// The comma-separated items of an annotation from `i`: regular invocations
/// fill the field slot, `each(...)` blocks fill the element slot. After an
/// `each(...)` block the comma is optional. The returned position stands
/// after the last item.
pub open spec fn sp_items(s: Seq<char>, i: int) -> Result<
    (Seq<ValidatorAttrV>, Seq<ValidatorAttrV>, int),
    SyntaxErrorV,
>
    decreases s.len() - i,
{
    let j = sp_ws(s, i);
    if j >= s.len() {
        Ok((Seq::empty(), Seq::empty(), j))
    } else {
        let is_each = match sp_ident(s, j) {
            Some((t, e)) => t == "each"@ && {
                let p = sp_ws(s, e);
                p < s.len() && s[p] == '('
            },
            None => false,
        };
        if is_each {
            let e = sp_ident(s, j)->Some_0.1;
            let p = sp_ws(s, e);
            match sp_each_items(s, p + 1) {
                Err(err) => Err(err),
                Ok((elems, e2)) => {
                    let j2 = sp_ws(s, e2);
                    let next = if j2 < s.len() && s[j2] == ',' {
                        j2 + 1
                    } else {
                        j2
                    };
                    if i < next <= s.len() {
                        match sp_items(s, next) {
                            Ok((fv, ev, e3)) => Ok((fv, elems + ev, e3)),
                            Err(err) => Err(err),
                        }
                    } else {
                        Err(SyntaxErrorV::UnexpectedEnd { pos: s.len() as int })
                    }
                },
            }
        } else {
            match sp_invocation(s, j) {
                Err(err) => Err(err),
                Ok((v, e)) => {
                    let j2 = sp_ws(s, e);
                    if j2 < s.len() && s[j2] == ',' {
                        if i < j2 + 1 <= s.len() {
                            match sp_items(s, j2 + 1) {
                                Ok((fv, ev, e3)) => Ok((seq![v] + fv, ev, e3)),
                                Err(err) => Err(err),
                            }
                        } else {
                            Err(SyntaxErrorV::UnexpectedEnd { pos: s.len() as int })
                        }
                    } else {
                        Ok((seq![v], Seq::empty(), e))
                    }
                },
            }
        }
    }
}

/// A whole annotation occurrence: one of the modifiers alone, or a list of
/// items covering the entire text.
pub open spec fn sp_parse_koruma(s: Seq<char>) -> Result<KorumaAttrV, SyntaxErrorV> {
    let i0 = sp_ws(s, 0);
    let modifier = match sp_ident(s, i0) {
        Some((t, e)) => if (t == "skip"@ || t == "nested"@ || t == "newtype"@) && sp_ws(s, e)
            >= s.len() {
            Some(t)
        } else {
            None
        },
        None => None,
    };
    match modifier {
        Some(t) => Ok(
            KorumaAttrV {
                field_validators: Seq::empty(),
                element_validators: Seq::empty(),
                is_skip: t == "skip"@,
                is_nested: t == "nested"@,
                is_newtype: t == "newtype"@,
            },
        ),
        None => match sp_items(s, 0) {
            Err(err) => Err(err),
            Ok((fv, ev, e)) => {
                let tail = sp_ws(s, e);
                if tail < s.len() {
                    Err(SyntaxErrorV::TrailingInput { pos: tail })
                } else {
                    Ok(
                        KorumaAttrV {
                            field_validators: fv,
                            element_validators: ev,
                            is_skip: false,
                            is_nested: false,
                            is_newtype: false,
                        },
                    )
                }
            },
        },
    }
}

/// A whole single-invocation annotation covering the entire text.
pub open spec fn sp_parse_validator(s: Seq<char>) -> Result<ValidatorAttrV, SyntaxErrorV> {
    match sp_invocation(s, 0) {
        Err(err) => Err(err),
        Ok((v, e)) => {
            let tail = sp_ws(s, e);
            if tail < s.len() {
                Err(SyntaxErrorV::TrailingInput { pos: tail })
            } else {
                Ok(v)
            }
        },
    }
}

/// Struct-level options from `i`: option names, commas optional between
/// them; an unknown name is refused, carrying the offender.
pub open spec fn sp_options_items(s: Seq<char>, i: int) -> Result<(bool, bool), SyntaxErrorV>
    decreases s.len() - i,
{
    let j = sp_ws(s, i);
    if j >= s.len() {
        Ok((false, false))
    } else {
        match sp_ident(s, j) {
            None => Err(SyntaxErrorV::ExpectedIdent { pos: j }),
            Some((t, e)) => if t == "try_new"@ || t == "newtype"@ {
                let j2 = sp_ws(s, e);
                let next = if j2 < s.len() && s[j2] == ',' {
                    j2 + 1
                } else {
                    j2
                };
                if i < next <= s.len() {
                    match sp_options_items(s, next) {
                        Ok((rt, rn)) => Ok(((t == "try_new"@) || rt, (t == "newtype"@) || rn)),
                        Err(err) => Err(err),
                    }
                } else {
                    Err(SyntaxErrorV::UnexpectedEnd { pos: s.len() as int })
                }
            } else {
                Err(SyntaxErrorV::UnknownStructOption { pos: j, name: t })
            },
        }
    }
}

/// A comma-separated list of types closed by `>`; the returned position
/// stands after the `>`.

/// A comma-separated list of types closed by `>`; the returned position
/// stands after the `>`.
pub open spec fn sp_type_list(s: Seq<char>, i: int) -> Result<(Seq<TypeExprV>, int), SyntaxErrorV>
    decreases s.len() - i, 3int,
{
    match sp_type(s, i) {
        Ok((t, e)) => {
            let j = sp_ws(s, e);
            if j < s.len() && s[j] == ',' {
                if i < j + 1 <= s.len() {
                    match sp_type_list(s, j + 1) {
                        Ok((rest, e2)) => Ok((seq![t] + rest, e2)),
                        Err(err) => Err(err),
                    }
                } else {
                    Err(SyntaxErrorV::UnexpectedEnd { pos: s.len() as int })
                }
            } else if j < s.len() && s[j] == '>' {
                Ok((seq![t], j + 1))
            } else {
                Err(SyntaxErrorV::ExpectedChar { pos: j, expected: '>' })
            }
        },
        Err(err) => Err(err),
    }
}

/// Builds the qualifier text for a path prefix.
fn join_qual(segs: &Vec<String>, upto: usize) -> (r: String)
    requires
        upto <= segs.len(),
    ensures
        r@ == sp_join_qual(segs.deep_view().take(upto as int)),
{
    let mut q = String::new();
    let mut m: usize = 0;
    while m < upto
        invariant
            0 <= m <= upto <= segs.len(),
            q@ == sp_join_qual(segs.deep_view().take(m as int)),
        decreases upto - m,
    {
        proof {
            let dv = segs.deep_view();
            assert(dv[m as int] == segs[m as int]@);
            assert(dv.take(m + 1).drop_last() =~= dv.take(m as int));
            assert(dv.take(m + 1).last() == segs[m as int]@);
        }
        q.append(segs[m].as_str());
        q.append("::");
        m = m + 1;
    }
    q
}

/// The named type for parsed segments and arguments; a lone `_` with no
/// arguments is the inference placeholder.
fn mk_type(segs: Vec<String>, args: Vec<TypeExpr>) -> (r: TypeExpr)
    requires
        segs.len() > 0,
    ensures
        r@ == sp_mk_type(segs.deep_view(), TypeExpr::models(args@)),
{
    proof {
        crate::ast::lemma_type_expr_models(args@);
        assert(segs.deep_view()[0] == segs[0]@);
    }
    let lone = segs.len() == 1 && args.len() == 0 && crate::resolve::str_eq_lit(&segs[0], "_");
    if lone {
        proof {
            assert(TypeExpr::models(args@) =~= Seq::<TypeExprV>::empty());
        }
        TypeExpr::Placeholder
    } else {
        let qualifier = join_qual(&segs, segs.len() - 1);
        let name = segs[segs.len() - 1].clone();
        proof {
            let dv = segs.deep_view();
            assert(dv.take(dv.len() - 1) =~= dv.drop_last());
            assert(dv[dv.len() - 1] == segs[segs.len() - 1]@);
        }
        TypeExpr::Named { qualifier, name, args }
    }
}

impl<'a> Cursor<'a> {
    /// More `:: ident` path segments from `i`.
    fn p_path_more(&self, i: usize, acc: Vec<String>) -> (r: (Vec<String>, usize))
        requires
            self.wf(),
            i <= self.n,
        ensures
            (r.0.deep_view(), r.1 as int) == sp_path_more(self.text(), i as int, acc.deep_view()),
            i <= r.1 <= self.n,
            r.0.len() >= acc.len(),
        decreases self.n - i,
    {
        let j = self.skip_ws(i);
        if self.at_colons(j) {
            let k = self.skip_ws(j + 2);
            match self.scan_ident(k) {
                Some((t, e)) => {
                    if i < e {
                        let mut acc2 = acc;
                        acc2.push(t);
                        proof {
                            assert(acc2.deep_view() =~= acc.deep_view().push(acc2[acc2.len()
                                - 1]@));
                        }
                        self.p_path_more(e, acc2)
                    } else {
                        (acc, i)
                    }
                },
                None => (acc, i),
            }
        } else {
            (acc, i)
        }
    }

    /// A validator path at `i`.
    fn p_path(&self, i: usize) -> (r: Result<(Vec<String>, usize), SyntaxError>)
        requires
            self.wf(),
            i <= self.n,
        ensures
            match r {
                Ok((segs, e)) => {
                    &&& sp_path(self.text(), i as int) == Ok::<_, SyntaxErrorV>((
                        segs.deep_view(),
                        e as int,
                    ))
                    &&& i < e <= self.n
                    &&& segs.len() > 0
                },
                Err(err) => sp_path(self.text(), i as int) == Err::<(Seq<Seq<char>>, int), _>(
                    err@,
                ),
            },
    {
        let i0 = self.skip_ws(i);
        match self.scan_ident(i0) {
            Some((t, e)) => {
                let mut acc: Vec<String> = Vec::new();
                acc.push(t);
                proof {
                    assert(acc.deep_view() =~= seq![acc[0]@]);
                }
                let r = self.p_path_more(e, acc);
                Ok(r)
            },
            None => Err(
                SyntaxError { position: i0, kind: SyntaxErrorKind::ExpectedIdent },
            ),
        }
    }

    /// A type expression at `i`.
    fn p_type(&self, i: usize) -> (r: Result<(TypeExpr, usize), SyntaxError>)
        requires
            self.wf(),
            i <= self.n,
        ensures
            match r {
                Ok((t, e)) => sp_type(self.text(), i as int) == Ok::<_, SyntaxErrorV>((
                    t@,
                    e as int,
                )) && i < e <= self.n,
                Err(err) => sp_type(self.text(), i as int) == Err::<(TypeExprV, int), _>(err@),
            },
        decreases self.n - i, 1int,
    {
        let i0 = self.skip_ws(i);
        match self.scan_ident(i0) {
            Some((t, e)) => {
                let mut segs: Vec<String> = Vec::new();
                segs.push(t);
                proof {
                    assert(segs.deep_view() =~= seq![segs[0]@]);
                }
                self.p_type_more(e, segs)
            },
            None => Err(
                SyntaxError { position: i0, kind: SyntaxErrorKind::ExpectedIdent },
            ),
        }
    }

    /// A type continued after a path segment ending at `i`.
    fn p_type_more(&self, i: usize, segs: Vec<String>) -> (r: Result<
        (TypeExpr, usize),
        SyntaxError,
    >)
        requires
            self.wf(),
            0 < i <= self.n,
            segs.len() > 0,
        ensures
            match r {
                Ok((t, e)) => sp_type_more(self.text(), i as int, segs.deep_view())
                    == Ok::<_, SyntaxErrorV>((t@, e as int)) && i <= e <= self.n,
                Err(err) => sp_type_more(self.text(), i as int, segs.deep_view()) == Err::<
                    (TypeExprV, int),
                    _,
                >(err@),
            },
        decreases self.n - i, 2int,
    {
        let j = self.skip_ws(i);
        if self.at_colons(j) {
            let k = self.skip_ws(j + 2);
            if self.at_is(k, '<') {
                if i < k {
                    self.p_type_args(k, segs)
                } else {
                    Err(SyntaxError { position: k, kind: SyntaxErrorKind::ExpectedIdent })
                }
            } else {
                match self.scan_ident(k) {
                    Some((t, e)) => {
                        if i < e {
                            let mut segs2 = segs;
                            segs2.push(t);
                            proof {
                                assert(segs2.deep_view() =~= segs.deep_view().push(
                                    segs2[segs2.len() - 1]@,
                                ));
                            }
                            self.p_type_more(e, segs2)
                        } else {
                            Err(
                                SyntaxError {
                                    position: k,
                                    kind: SyntaxErrorKind::ExpectedIdent,
                                },
                            )
                        }
                    },
                    None => Err(
                        SyntaxError { position: k, kind: SyntaxErrorKind::ExpectedIdent },
                    ),
                }
            }
        } else if self.at_is(j, '<') {
            self.p_type_args(j, segs)
        } else {
            let no_args: Vec<TypeExpr> = Vec::new();
            proof {
                assert(no_args@ =~= Seq::<TypeExpr>::empty());
                crate::ast::lemma_type_expr_models(no_args@);
                assert(TypeExpr::models(no_args@) =~= Seq::<TypeExprV>::empty());
            }
            let t = mk_type(segs, no_args);
            Ok((t, i))
        }
    }

    /// Generic arguments from the `<` at `j`.
    fn p_type_args(&self, j: usize, segs: Vec<String>) -> (r: Result<
        (TypeExpr, usize),
        SyntaxError,
    >)
        requires
            self.wf(),
            j < self.n,
            self.text()[j as int] == '<',
            segs.len() > 0,
        ensures
            match r {
                Ok((t, e)) => sp_type_args(self.text(), j as int, segs.deep_view())
                    == Ok::<_, SyntaxErrorV>((t@, e as int)) && j < e <= self.n,
                Err(err) => sp_type_args(self.text(), j as int, segs.deep_view()) == Err::<
                    (TypeExprV, int),
                    _,
                >(err@),
            },
        decreases self.n - j, 0int,
    {
        let m = self.skip_ws(j + 1);
        if self.at_is(m, '>') {
            let no_args: Vec<TypeExpr> = Vec::new();
            proof {
                assert(no_args@ =~= Seq::<TypeExpr>::empty());
                crate::ast::lemma_type_expr_models(no_args@);
                assert(TypeExpr::models(no_args@) =~= Seq::<TypeExprV>::empty());
            }
            let t = mk_type(segs, no_args);
            Ok((t, m + 1))
        } else {
            match self.p_type_list(j + 1) {
                Ok((args, e)) => {
                    proof {
                        crate::ast::lemma_type_expr_models(args@);
                    }
                    let t = mk_type(segs, args);
                    Ok((t, e))
                },
                Err(err) => Err(err),
            }
        }
    }

    /// A comma-separated list of types closed by `>`.
    fn p_type_list(&self, i: usize) -> (r: Result<(Vec<TypeExpr>, usize), SyntaxError>)
        requires
            self.wf(),
            i <= self.n,
        ensures
            match r {
                Ok((ts, e)) => sp_type_list(self.text(), i as int) == Ok::<_, SyntaxErrorV>((
                    TypeExpr::models(ts@),
                    e as int,
                )) && i < e <= self.n,
                Err(err) => sp_type_list(self.text(), i as int) == Err::<
                    (Seq<TypeExprV>, int),
                    _,
                >(err@),
            },
        decreases self.n - i, 3int,
    {
        match self.p_type(i) {
            Ok((t, e)) => {
                let j = self.skip_ws(e);
                if self.at_is(j, ',') {
                    match self.p_type_list(j + 1) {
                        Ok((rest, e2)) => {
                            let mut ts: Vec<TypeExpr> = Vec::new();
                            let ghost tv = t@;
                            ts.push(t);
                            let mut rest2 = rest;
                            let ghost restv = TypeExpr::models(rest2@);
                            proof {
                                crate::ast::lemma_type_expr_models(rest2@);
                            }
                            let mut k: usize = 0;
                            while k < rest2.len()
                                invariant
                                    0 <= k <= rest2.len(),
                                    ts.len() == 1 + k,
                                    ts[0]@ == tv,
                                    forall|m: int| 0 <= m < k ==> ts[1 + m]@ == rest2[m]@,
                                    forall|m: int|
                                        k <= m < rest2.len() ==> rest2[m]@ == restv[m],
                                    restv.len() == rest2.len(),
                                    forall|m: int| 0 <= m < k ==> ts[1 + m]@ == restv[m],
                                decreases rest2.len() - k,
                            {
                                let x = rest2[k].clone();
                                ts.push(x);
                                k = k + 1;
                            }
                            proof {
                                crate::ast::lemma_type_expr_models(ts@);
                                crate::ast::lemma_type_expr_models(rest2@);
                                assert(TypeExpr::models(ts@) =~= seq![tv] + restv);
                            }
                            Ok((ts, e2))
                        },
                        Err(err) => Err(err),
                    }
                } else if self.at_is(j, '>') {
                    let mut ts: Vec<TypeExpr> = Vec::new();
                    let ghost tv = t@;
                    ts.push(t);
                    proof {
                        crate::ast::lemma_type_expr_models(ts@);
                        assert(TypeExpr::models(ts@) =~= seq![tv]);
                    }
                    Ok((ts, j + 1))
                } else {
                    Err(
                        SyntaxError {
                            position: j,
                            kind: SyntaxErrorKind::ExpectedChar { expected: '>' },
                        },
                    )
                }
            },
            Err(err) => Err(err),
        }
    }
}


/// The models of a list of invocations, element by element.
pub open spec fn attr_views(vs: Seq<ValidatorAttr>) -> Seq<ValidatorAttrV> {
    Seq::new(vs.len(), |i: int| vs[i]@)
}

/// The models of a list of argument pairs, element by element.
pub open spec fn arg_views(vs: Seq<ArgPair>) -> Seq<ArgPairV> {
    Seq::new(vs.len(), |i: int| vs[i]@)
}

/// Concatenates two lists of invocations.
fn concat_attrs(front: Vec<ValidatorAttr>, back: Vec<ValidatorAttr>) -> (r: Vec<ValidatorAttr>)
    ensures
        r@ == front@ + back@,
{
    let ghost frontv = front@;
    let ghost backv = back@;
    let mut out = front;
    let mut rest = back;
    while rest.len() > 0
        invariant
            out@ + rest@ =~= frontv + backv,
        decreases rest.len(),
    {
        let x = rest.remove(0);
        out.push(x);
    }
    proof {
        assert(out@ =~= frontv + backv);
    }
    out
}

impl<'a> Cursor<'a> {
    /// Scans past a string literal whose opening quote stands before `i`.
    fn p_str_end(&self, i: usize) -> (r: Result<usize, SyntaxError>)
        requires
            self.wf(),
            i <= self.n,
        ensures
            match r {
                Ok(e) => sp_str_end(self.text(), i as int) == Ok::<_, SyntaxErrorV>(e as int) && i
                    < e <= self.n,
                Err(err) => sp_str_end(self.text(), i as int) == Err::<int, _>(err@),
            },
        decreases self.n - i,
    {
        if i >= self.n {
            Err(SyntaxError { position: self.n, kind: SyntaxErrorKind::UnexpectedEnd })
        } else {
            let b = byte_at(self.s, i);
            if b == 34 {
                Ok(i + 1)
            } else if b == 92 {
                if self.n >= 2 && i <= self.n - 2 {
                    self.p_str_end(i + 2)
                } else {
                    Err(SyntaxError { position: self.n, kind: SyntaxErrorKind::UnexpectedEnd })
                }
            } else {
                self.p_str_end(i + 1)
            }
        }
    }

    /// Scans to the end of a raw argument expression.
    fn p_expr_end(&self, i: usize, depth: usize) -> (r: Result<usize, SyntaxError>)
        requires
            self.wf(),
            i <= self.n,
            depth <= i,
        ensures
            match r {
                Ok(e) => sp_expr_end(self.text(), i as int, depth as int) == Ok::<
                    _,
                    SyntaxErrorV,
                >(e as int) && i <= e <= self.n,
                Err(err) => sp_expr_end(self.text(), i as int, depth as int) == Err::<int, _>(
                    err@,
                ),
            },
        decreases self.n - i,
    {
        if i >= self.n {
            Err(SyntaxError { position: self.n, kind: SyntaxErrorKind::UnexpectedEnd })
        } else {
            let b = byte_at(self.s, i);
            if depth == 0 && (b == 44 || b == 41) {
                Ok(i)
            } else if b == 40 || b == 91 || b == 123 {
                self.p_expr_end(i + 1, depth + 1)
            } else if b == 41 || b == 93 || b == 125 {
                self.p_expr_end(i + 1, if depth > 0 { depth - 1 } else { 0 })
            } else if b == 34 {
                match self.p_str_end(i + 1) {
                    Ok(e) => self.p_expr_end(e, depth),
                    Err(err) => Err(err),
                }
            } else {
                self.p_expr_end(i + 1, depth)
            }
        }
    }

    /// The argument pairs up to and past the closing parenthesis.
    fn p_args_items(&self, i: usize) -> (r: Result<(Vec<ArgPair>, usize), SyntaxError>)
        requires
            self.wf(),
            i <= self.n,
        ensures
            match r {
                Ok((args, e)) => sp_args_items(self.text(), i as int) == Ok::<_, SyntaxErrorV>((
                    arg_views(args@),
                    e as int,
                )) && i < e <= self.n,
                Err(err) => sp_args_items(self.text(), i as int) == Err::<
                    (Seq<ArgPairV>, int),
                    _,
                >(err@),
            },
        decreases self.n - i,
    {
        let j = self.skip_ws(i);
        if self.at_is(j, ')') {
            let empty: Vec<ArgPair> = Vec::new();
            proof {
                assert(arg_views(empty@) =~= Seq::<ArgPairV>::empty());
            }
            Ok((empty, j + 1))
        } else {
            match self.scan_ident(j) {
                None => Err(SyntaxError { position: j, kind: SyntaxErrorKind::ExpectedIdent }),
                Some((name, e)) => {
                    let j2 = self.skip_ws(e);
                    if self.at_is(j2, '=') {
                        match self.p_expr_end(j2 + 1, 0) {
                            Err(err) => Err(err),
                            Ok(stop) => {
                                let a = self.trim_start(j2 + 1, stop);
                                let b = self.trim_end(a, stop);
                                if a >= b {
                                    Err(
                                        SyntaxError {
                                            position: j2 + 1,
                                            kind: SyntaxErrorKind::ExpectedExpr,
                                        },
                                    )
                                } else {
                                    let value = self.s.substring_ascii(a, b).to_owned();
                                    let pair = ArgPair { name, value };
                                    let ghost pairv = pair@;
                                    if self.at_is(stop, ',') {
                                        match self.p_args_items(stop + 1) {
                                            Ok((rest, e2)) => {
                                                let ghost restv = arg_views(rest@);
                                                let mut args = rest;
                                                args.insert(0, pair);
                                                proof {
                                                    assert(arg_views(args@) =~= seq![pairv]
                                                        + restv);
                                                }
                                                Ok((args, e2))
                                            },
                                            Err(err) => Err(err),
                                        }
                                    } else if self.at_is(stop, ')') {
                                        let mut args: Vec<ArgPair> = Vec::new();
                                        args.push(pair);
                                        proof {
                                            assert(arg_views(args@) =~= seq![pairv]);
                                        }
                                        Ok((args, stop + 1))
                                    } else {
                                        Err(
                                            SyntaxError {
                                                position: stop,
                                                kind: SyntaxErrorKind::ExpectedChar {
                                                    expected: ')',
                                                },
                                            },
                                        )
                                    }
                                }
                            },
                        }
                    } else {
                        Err(
                            SyntaxError {
                                position: j2,
                                kind: SyntaxErrorKind::ExpectedChar { expected: '=' },
                            },
                        )
                    }
                },
            }
        }
    }

    /// The first non-whitespace position in `a..b`.
    fn trim_start(&self, a: usize, b: usize) -> (r: usize)
        requires
            self.wf(),
            a <= self.n,
            b <= self.n,
        ensures
            r == sp_trim_start(self.text(), a as int, b as int),
            a <= r,
            r <= b || r == a,
    {
        let mut x = a;
        let mut stop = false;
        while !stop
            invariant
                self.wf(),
                a <= x <= self.n,
                x <= b || x == a,
                sp_trim_start(self.text(), a as int, b as int) == sp_trim_start(
                    self.text(),
                    x as int,
                    b as int,
                ),
                stop ==> !(x < b && x < self.n && spec_is_ws(self.text()[x as int])),
            decreases self.n - x + (if stop { 0int } else { 1int }),
        {
            if x < b && x < self.n {
                let c = byte_at(self.s, x);
                if c == 32 || c == 9 || c == 10 || c == 13 {
                    x = x + 1;
                } else {
                    stop = true;
                }
            } else {
                stop = true;
            }
        }
        x
    }

    /// The position after the last non-whitespace character in `a..b`.
    fn trim_end(&self, a: usize, b: usize) -> (r: usize)
        requires
            self.wf(),
            a <= self.n,
            b <= self.n,
        ensures
            r == sp_trim_end(self.text(), a as int, b as int),
            r <= b,
            a <= r || r == b,
    {
        let mut x = b;
        let mut stop = false;
        while !stop
            invariant
                self.wf(),
                x <= b <= self.n,
                a <= x || x == b,
                sp_trim_end(self.text(), a as int, b as int) == sp_trim_end(
                    self.text(),
                    a as int,
                    x as int,
                ),
                stop ==> !(a < x && 0 <= x - 1 && x - 1 < self.n && spec_is_ws(
                    self.text()[x - 1],
                )),
            decreases x + (if stop { 0int } else { 1int }),
        {
            if a < x && x >= 1 && x - 1 < self.n {
                let c = byte_at(self.s, x - 1);
                if c == 32 || c == 9 || c == 10 || c == 13 {
                    x = x - 1;
                } else {
                    stop = true;
                }
            } else {
                stop = true;
            }
        }
        x
    }

    /// One validator invocation at `i`.
    fn p_invocation(&self, i: usize) -> (r: Result<(ValidatorAttr, usize), SyntaxError>)
        requires
            self.wf(),
            i <= self.n,
        ensures
            match r {
                Ok((v, e)) => sp_invocation(self.text(), i as int) == Ok::<_, SyntaxErrorV>((
                    v@,
                    e as int,
                )) && i < e <= self.n && v@.wf(),
                Err(err) => sp_invocation(self.text(), i as int) == Err::<
                    (ValidatorAttrV, int),
                    _,
                >(err@),
            },
    {
        match self.p_path(i) {
            Err(err) => Err(err),
            Ok((segs, p)) => {
                let j = self.skip_ws(p);
                if self.at_is(j, '<') {
                    Err(
                        SyntaxError {
                            position: j,
                            kind: SyntaxErrorKind::LegacyGenericSyntax,
                        },
                    )
                } else {
                    let has_turbofish = self.at_colons(j) && {
                        let k = self.skip_ws(j + 2);
                        self.at_is(k, '<')
                    };
                    if has_turbofish {
                        let k = self.skip_ws(j + 2);
                        match self.p_type(k + 1) {
                            Err(err) => Err(err),
                            Ok((tv, e)) => {
                                let j3 = self.skip_ws(e);
                                if self.at_is(j3, '>') {
                                    let infer = matches!(tv, TypeExpr::Placeholder);
                                    let explicit = if infer {
                                        None
                                    } else {
                                        Some(tv)
                                    };
                                    self.p_invocation_args(segs, infer, explicit, j3 + 1)
                                } else {
                                    Err(
                                        SyntaxError {
                                            position: j3,
                                            kind: SyntaxErrorKind::ExpectedChar {
                                                expected: '>',
                                            },
                                        },
                                    )
                                }
                            },
                        }
                    } else {
                        self.p_invocation_args(segs, false, None, p)
                    }
                }
            },
        }
    }

    /// The optional argument list closing an invocation.
    fn p_invocation_args(
        &self,
        segs: Vec<String>,
        infer: bool,
        explicit: Option<TypeExpr>,
        p: usize,
    ) -> (r: Result<(ValidatorAttr, usize), SyntaxError>)
        requires
            self.wf(),
            p <= self.n,
            segs.len() > 0,
        ensures
            match r {
                Ok((v, e)) => sp_invocation_args(
                    self.text(),
                    segs.deep_view(),
                    infer,
                    match explicit {
                        Some(t) => Some(t@),
                        None => None,
                    },
                    p as int,
                ) == Ok::<_, SyntaxErrorV>((v@, e as int)) && p <= e <= self.n && v@.wf(),
                Err(err) => sp_invocation_args(
                    self.text(),
                    segs.deep_view(),
                    infer,
                    match explicit {
                        Some(t) => Some(t@),
                        None => None,
                    },
                    p as int,
                ) == Err::<(ValidatorAttrV, int), _>(err@),
            },
    {
        let a = self.skip_ws(p);
        if self.at_is(a, '(') {
            match self.p_args_items(a + 1) {
                Err(err) => Err(err),
                Ok((args, e)) => {
                    let v = ValidatorAttr { validator: segs, infer_type: infer, explicit_type: explicit, args };
                    proof {
                        assert(v@.args =~= arg_views(v.args@));
                    }
                    Ok((v, e))
                },
            }
        } else {
            let v = ValidatorAttr {
                validator: segs,
                infer_type: infer,
                explicit_type: explicit,
                args: Vec::new(),
            };
            proof {
                assert(v@.args =~= Seq::<ArgPairV>::empty());
            }
            Ok((v, p))
        }
    }

    /// The invocations inside an `each(...)` block.
    fn p_each_items(&self, i: usize) -> (r: Result<(Vec<ValidatorAttr>, usize), SyntaxError>)
        requires
            self.wf(),
            i <= self.n,
        ensures
            match r {
                Ok((vs, e)) => sp_each_items(self.text(), i as int) == Ok::<_, SyntaxErrorV>((
                    attr_views(vs@),
                    e as int,
                )) && i < e <= self.n && (forall|k: int| 0 <= k < vs.len() ==> vs[k]@.wf()),
                Err(err) => sp_each_items(self.text(), i as int) == Err::<
                    (Seq<ValidatorAttrV>, int),
                    _,
                >(err@),
            },
        decreases self.n - i,
    {
        let j = self.skip_ws(i);
        if self.at_is(j, ')') {
            let empty: Vec<ValidatorAttr> = Vec::new();
            proof {
                assert(attr_views(empty@) =~= Seq::<ValidatorAttrV>::empty());
            }
            Ok((empty, j + 1))
        } else {
            match self.p_invocation(j) {
                Err(err) => Err(err),
                Ok((v, e)) => {
                    let j2 = self.skip_ws(e);
                    if self.at_is(j2, ',') {
                        match self.p_each_items(j2 + 1) {
                            Ok((rest, e2)) => {
                                let ghost vv = v@;
                                let ghost restv = attr_views(rest@);
                                let mut vs = rest;
                                vs.insert(0, v);
                                proof {
                                    assert(attr_views(vs@) =~= seq![vv] + restv);
                                }
                                Ok((vs, e2))
                            },
                            Err(err) => Err(err),
                        }
                    } else if self.at_is(j2, ')') {
                        let ghost vv = v@;
                        let mut vs: Vec<ValidatorAttr> = Vec::new();
                        vs.push(v);
                        proof {
                            assert(attr_views(vs@) =~= seq![vv]);
                        }
                        Ok((vs, j2 + 1))
                    } else {
                        Err(
                            SyntaxError {
                                position: j2,
                                kind: SyntaxErrorKind::TrailingInput,
                            },
                        )
                    }
                },
            }
        }
    }

    /// The comma-separated items of an annotation.
    #[verifier::rlimit(60)]
    fn p_items(&self, i: usize) -> (r: Result<
        (Vec<ValidatorAttr>, Vec<ValidatorAttr>, usize),
        SyntaxError,
    >)
        requires
            self.wf(),
            i <= self.n,
        ensures
            match r {
                Ok((fv, ev, e)) => sp_items(self.text(), i as int) == Ok::<_, SyntaxErrorV>((
                    attr_views(fv@),
                    attr_views(ev@),
                    e as int,
                )) && e <= self.n && (forall|k: int| 0 <= k < fv.len() ==> fv[k]@.wf()) && (
                forall|k: int| 0 <= k < ev.len() ==> ev[k]@.wf()),
                Err(err) => sp_items(self.text(), i as int) == Err::<
                    (Seq<ValidatorAttrV>, Seq<ValidatorAttrV>, int),
                    _,
                >(err@),
            },
        decreases self.n - i,
    {
        let j = self.skip_ws(i);
        if j >= self.n {
            let fv: Vec<ValidatorAttr> = Vec::new();
            let ev: Vec<ValidatorAttr> = Vec::new();
            proof {
                assert(attr_views(fv@) =~= Seq::<ValidatorAttrV>::empty());
                assert(attr_views(ev@) =~= Seq::<ValidatorAttrV>::empty());
            }
            Ok((fv, ev, j))
        } else {
            let mut is_each = false;
            let mut each_end: usize = j;
            match self.scan_ident(j) {
                Some((t, e)) => {
                    if crate::resolve::str_eq_lit(&t, "each") {
                        let p = self.skip_ws(e);
                        if self.at_is(p, '(') {
                            is_each = true;
                            each_end = e;
                        }
                    }
                },
                None => {},
            }
            if is_each {
                let p = self.skip_ws(each_end);
                match self.p_each_items(p + 1) {
                    Err(err) => Err(err),
                    Ok((elems, e2)) => {
                        let j2 = self.skip_ws(e2);
                        let next = if self.at_is(j2, ',') {
                            j2 + 1
                        } else {
                            j2
                        };
                        match self.p_items(next) {
                            Ok((fv, ev, e3)) => {
                                let ghost elemsv = attr_views(elems@);
                                let ghost evv = attr_views(ev@);
                                let ev2 = concat_attrs(elems, ev);
                                proof {
                                    assert(attr_views(ev2@) =~= elemsv + evv);
                                }
                                Ok((fv, ev2, e3))
                            },
                            Err(err) => Err(err),
                        }
                    },
                }
            } else {
                match self.p_invocation(j) {
                    Err(err) => Err(err),
                    Ok((v, e)) => {
                        let j2 = self.skip_ws(e);
                        if self.at_is(j2, ',') {
                            match self.p_items(j2 + 1) {
                                Ok((fv, ev, e3)) => {
                                    let ghost vv = v@;
                                    let ghost fvv = attr_views(fv@);
                                    let mut fv2 = fv;
                                    fv2.insert(0, v);
                                    proof {
                                        assert(attr_views(fv2@) =~= seq![vv] + fvv);
                                    }
                                    Ok((fv2, ev, e3))
                                },
                                Err(err) => Err(err),
                            }
                        } else {
                            let ghost vv = v@;
                            let mut fv: Vec<ValidatorAttr> = Vec::new();
                            fv.push(v);
                            let ev: Vec<ValidatorAttr> = Vec::new();
                            proof {
                                assert(attr_views(fv@) =~= seq![vv]);
                                assert(attr_views(ev@) =~= Seq::<ValidatorAttrV>::empty());
                            }
                            Ok((fv, ev, e))
                        }
                    },
                }
            }
        }
    }
}

/// Struct-level options over a whole text.
pub open spec fn sp_parse_options(s: Seq<char>) -> Result<(bool, bool), SyntaxErrorV> {
    sp_options_items(s, 0)
}

impl<'a> Cursor<'a> {
    /// Struct-level option names from `i`.
    fn p_options_items(&self, i: usize) -> (r: Result<(bool, bool), SyntaxError>)
        requires
            self.wf(),
            i <= self.n,
        ensures
            match r {
                Ok((t, w)) => sp_options_items(self.text(), i as int) == Ok::<_, SyntaxErrorV>(
                    (t, w),
                ),
                Err(err) => sp_options_items(self.text(), i as int) == Err::<(bool, bool), _>(
                    err@,
                ),
            },
        decreases self.n - i,
    {
        let j = self.skip_ws(i);
        if j >= self.n {
            Ok((false, false))
        } else {
            match self.scan_ident(j) {
                None => Err(SyntaxError { position: j, kind: SyntaxErrorKind::ExpectedIdent }),
                Some((t, e)) => {
                    let is_try_new = crate::resolve::str_eq_lit(&t, "try_new");
                    let is_newtype = crate::resolve::str_eq_lit(&t, "newtype");
                    if is_try_new || is_newtype {
                        let j2 = self.skip_ws(e);
                        let next = if self.at_is(j2, ',') {
                            j2 + 1
                        } else {
                            j2
                        };
                        match self.p_options_items(next) {
                            Ok((rt, rn)) => Ok((is_try_new || rt, is_newtype || rn)),
                            Err(err) => Err(err),
                        }
                    } else {
                        Err(
                            SyntaxError {
                                position: j,
                                kind: SyntaxErrorKind::UnknownStructOption { name: t },
                            },
                        )
                    }
                },
            }
        }
    }
}

/// Parses one annotation occurrence: a modifier (`skip`, `nested`,
/// `newtype`) standing alone, or comma-separated validator invocations and
/// `each(...)` blocks. Only ASCII text is accepted.
#[verifier::rlimit(100)]
#[verifier::spinoff_prover]
pub fn parse_koruma_attr(s: &str) -> (r: Result<KorumaAttr, SyntaxError>)
    ensures
        vstd::string::is_ascii(s) ==> match r {
            Ok(attr) => sp_parse_koruma(s@) == Ok::<_, SyntaxErrorV>(attr@),
            Err(err) => sp_parse_koruma(s@) == Err::<KorumaAttrV, _>(err@),
        },
        !vstd::string::is_ascii(s) ==> (r matches Err(err) && err@ == SyntaxErrorV::NonAscii),
        r matches Ok(attr) ==> {
            &&& forall|k: int|
                0 <= k < attr@.field_validators.len() ==> attr@.field_validators[k].wf()
            &&& forall|k: int|
                0 <= k < attr@.element_validators.len() ==> attr@.element_validators[k].wf()
        },
{
    if !s.is_ascii() {
        return Err(SyntaxError { position: 0, kind: SyntaxErrorKind::NonAscii });
    }
    proof {
        reveal_strlit("skip");
        reveal_strlit("nested");
        reveal_strlit("newtype");
    }
    let cur = Cursor::new(s);
    let i0 = cur.skip_ws(0);
    match cur.scan_ident(i0) {
        Some((t, e)) => {
            if cur.skip_ws(e) >= cur.n {
                let is_skip = crate::resolve::str_eq_lit(&t, "skip");
                let is_nested = crate::resolve::str_eq_lit(&t, "nested");
                let is_newtype = crate::resolve::str_eq_lit(&t, "newtype");
                if is_skip || is_nested || is_newtype {
                    let attr = KorumaAttr {
                        field_validators: Vec::new(),
                        element_validators: Vec::new(),
                        is_skip,
                        is_nested,
                        is_newtype,
                    };
                    proof {
                        assert(attr@.field_validators =~= Seq::<ValidatorAttrV>::empty());
                        assert(attr@.element_validators =~= Seq::<ValidatorAttrV>::empty());
                        assert(sp_parse_koruma(s@) == Ok::<KorumaAttrV, SyntaxErrorV>(attr@));
                    }
                    return Ok(attr);
                }
            }
        },
        None => {},
    }
    {
        match cur.p_items(0) {
            Err(err) => Err(err),
            Ok((fv, ev, e)) => {
                let tail = cur.skip_ws(e);
                if tail < cur.n {
                    Err(SyntaxError { position: tail, kind: SyntaxErrorKind::TrailingInput })
                } else {
                    let ghost fvv = attr_views(fv@);
                    let ghost evv = attr_views(ev@);
                    let attr = KorumaAttr {
                        field_validators: fv,
                        element_validators: ev,
                        is_skip: false,
                        is_nested: false,
                        is_newtype: false,
                    };
                    proof {
                        assert(attr@.field_validators =~= fvv);
                        assert(attr@.element_validators =~= evv);
                        assert(sp_parse_koruma(s@) == Ok::<KorumaAttrV, SyntaxErrorV>(attr@));
                        assert forall|k: int|
                            0 <= k < attr@.field_validators.len()
                                implies attr@.field_validators[k].wf() by {
                            assert(attr@.field_validators[k] == attr.field_validators[k]@);
                        }
                        assert forall|k: int|
                            0 <= k < attr@.element_validators.len()
                                implies attr@.element_validators[k].wf() by {
                            assert(attr@.element_validators[k] == attr.element_validators[k]@);
                        }
                    }
                    Ok(attr)
                }
            },
        }
    }
}

/// Parses one validator invocation covering the whole text. Only ASCII
/// text is accepted.
pub fn parse_validator_attr(s: &str) -> (r: Result<ValidatorAttr, SyntaxError>)
    ensures
        vstd::string::is_ascii(s) ==> match r {
            Ok(v) => sp_parse_validator(s@) == Ok::<_, SyntaxErrorV>(v@),
            Err(err) => sp_parse_validator(s@) == Err::<ValidatorAttrV, _>(err@),
        },
        !vstd::string::is_ascii(s) ==> (r matches Err(err) && err@ == SyntaxErrorV::NonAscii),
        r matches Ok(v) ==> v@.wf(),
{
    if !s.is_ascii() {
        return Err(SyntaxError { position: 0, kind: SyntaxErrorKind::NonAscii });
    }
    let cur = Cursor::new(s);
    match cur.p_invocation(0) {
        Err(err) => Err(err),
        Ok((v, e)) => {
            let tail = cur.skip_ws(e);
            if tail < cur.n {
                Err(SyntaxError { position: tail, kind: SyntaxErrorKind::TrailingInput })
            } else {
                Ok(v)
            }
        },
    }
}

/// Parses struct-level options: a comma-separated list of option names.
/// An unrecognized name is refused, carrying the offender so the message
/// can name it beside the allowed set. Only ASCII text is accepted.
pub fn parse_struct_options(s: &str) -> (r: Result<StructOptions, SyntaxError>)
    ensures
        vstd::string::is_ascii(s) ==> match r {
            Ok(o) => sp_parse_options(s@) == Ok::<_, SyntaxErrorV>((o.try_new, o.newtype)),
            Err(err) => sp_parse_options(s@) == Err::<(bool, bool), _>(err@),
        },
        !vstd::string::is_ascii(s) ==> (r matches Err(err) && err@ == SyntaxErrorV::NonAscii),
{
    if !s.is_ascii() {
        return Err(SyntaxError { position: 0, kind: SyntaxErrorKind::NonAscii });
    }
    let cur = Cursor::new(s);
    match cur.p_options_items(0) {
        Ok((t, w)) => Ok(StructOptions { try_new: t, newtype: w }),
        Err(err) => Err(err),
    }
}

/// Whether a whole text is one bare identifier.
pub open spec fn sp_whole_ident(s: Seq<char>) -> bool {
    &&& vstd::utf8::is_ascii_chars(s)
    &&& sp_ident(s, 0) matches Some((t, e)) && e == s.len()
}

/// Whether an argument expression is a bare identifier (a sibling field
/// name, as opposed to any other expression).
pub fn expr_is_simple_ident(s: &str) -> (r: bool)
    ensures
        r == sp_whole_ident(s@),
{
    if !s.is_ascii() {
        return false;
    }
    let cur = Cursor::new(s);
    match cur.scan_ident(0) {
        Some((_t, e)) => e == cur.n,
        None => false,
    }
}

/// The argument expression itself when it is a bare identifier, `None`
/// for any other expression.
pub fn expr_as_simple_ident<'a>(expr: &'a String) -> (r: Option<&'a String>)
    ensures
        match r {
            Some(t) => sp_whole_ident(expr@) && t@ == expr@,
            None => !sp_whole_ident(expr@),
        },
{
    if expr_is_simple_ident(expr.as_str()) {
        Some(expr)
    } else {
        None
    }
}

} // verus!
