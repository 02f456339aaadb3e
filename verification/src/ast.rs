//! The structured model of one annotation: type expressions with inference
//! placeholders, a single validator invocation, the collected content of one
//! annotation occurrence, struct-level options, and the outcome of reading
//! one field's annotations.

use vstd::prelude::*;

verus! {

/// A type expression as written inside a turbofish: either the inference
/// placeholder `_` or a (possibly generic) named type such as `Vec<_>`.
#[derive(Debug)]
pub enum TypeExpr {
    /// The `_` placeholder, to be filled from the field's type.
    Placeholder,
    /// A named type with zero or more generic arguments. The qualifier is
    /// the path prefix as written (empty, or ending in `::`); Option / Vec
    /// recognition goes by the simple name alone, as a host language would
    /// match a path's last segment.
    Named { qualifier: String, name: String, args: Vec<TypeExpr> },
}

/// The mathematical model of a [`TypeExpr`].
pub enum TypeExprV {
    Placeholder,
    Named { qualifier: Seq<char>, name: Seq<char>, args: Seq<TypeExprV> },
}

impl TypeExpr {
    /// The model of one type expression.
    pub open spec fn model(self) -> TypeExprV
        decreases self,
    {
        match self {
            TypeExpr::Placeholder => TypeExprV::Placeholder,
            TypeExpr::Named { qualifier, name, args } => TypeExprV::Named {
                qualifier: qualifier@,
                name: name@,
                args: TypeExpr::models(args@),
            },
        }
    }

    /// The models of a sequence of type expressions, element by element.
    pub open spec fn models(ts: Seq<TypeExpr>) -> Seq<TypeExprV>
        decreases ts,
    {
        if ts.len() == 0 {
            Seq::empty()
        } else {
            seq![ts[0].model()] + TypeExpr::models(ts.skip(1))
        }
    }
}

/// `TypeExpr::models` maps the sequence element by element.
pub broadcast proof fn lemma_type_expr_models(ts: Seq<TypeExpr>)
    ensures
        #[trigger] TypeExpr::models(ts).len() == ts.len(),
        forall|i: int| 0 <= i < ts.len() ==> TypeExpr::models(ts)[i] == ts[i].model(),
    decreases ts.len(),
{
    if ts.len() > 0 {
        lemma_type_expr_models(ts.skip(1));
    }
}

impl View for TypeExpr {
    type V = TypeExprV;

    open spec fn view(&self) -> TypeExprV {
        self.model()
    }
}

/// Clones every type expression of a list, keeping each model.
fn clone_type_vec(args: &Vec<TypeExpr>) -> (r: Vec<TypeExpr>)
    ensures
        r.len() == args.len(),
        forall|k: int| 0 <= k < args.len() ==> r[k]@ == args[k]@,
    decreases args@,
{
    let mut cloned_args: Vec<TypeExpr> = Vec::new();
    let mut i: usize = 0;
    while i < args.len()
        invariant
            0 <= i <= args.len(),
            cloned_args.len() == i,
            forall|k: int| 0 <= k < i ==> cloned_args[k]@ == args[k]@,
        decreases args.len() - i,
    {
        proof {
            assert(decreases_to!(args@ => args@[i as int]));
        }
        cloned_args.push(args[i].clone());
        i = i + 1;
    }
    cloned_args
}

impl Clone for TypeExpr {
    /// Cloning keeps the model.
    fn clone(&self) -> (r: Self)
        ensures
            r@ == self@,
        decreases *self,
    {
        match self {
            TypeExpr::Placeholder => TypeExpr::Placeholder,
            TypeExpr::Named { qualifier, name, args } => {
                proof {
                    assert(decreases_to!(*self => self->Named_args));
                    assert(decreases_to!(self->Named_args => self->Named_args@));
                }
                let cloned_args = clone_type_vec(args);
                let r = TypeExpr::Named {
                    qualifier: qualifier.clone(),
                    name: name.clone(),
                    args: cloned_args,
                };
                proof {
                    lemma_type_expr_models(r->Named_args@);
                    lemma_type_expr_models(self->Named_args@);
                    assert(TypeExpr::models(r->Named_args@) =~= TypeExpr::models(
                        self->Named_args@,
                    ));
                }
                r
            },
        }
    }
}

impl TypeExpr {
    /// A plain named type without generic arguments.
    pub fn simple(name: String) -> (r: TypeExpr)
        ensures
            r@ == (TypeExprV::Named {
                qualifier: Seq::<char>::empty(),
                name: name@,
                args: Seq::<TypeExprV>::empty(),
            }),
    {
        let r = TypeExpr::Named { qualifier: String::new(), name, args: Vec::new() };
        proof {
            assert(r@->Named_qualifier =~= Seq::<char>::empty());
        }
        proof {
            assert(r@->Named_args =~= Seq::<TypeExprV>::empty());
        }
        r
    }
}

/// One named argument handed to a validator: `name = value`, the value kept
/// as the raw expression text it was written with.
#[derive(Clone, Debug)]
pub struct ArgPair {
    pub name: String,
    pub value: String,
}

/// The mathematical model of an [`ArgPair`].
pub struct ArgPairV {
    pub name: Seq<char>,
    pub value: Seq<char>,
}

impl View for ArgPair {
    type V = ArgPairV;

    open spec fn view(&self) -> ArgPairV {
        ArgPairV { name: self.name@, value: self.value@ }
    }
}

/// One parsed validator invocation: a (possibly dotted) path, an optional
/// type parameter written in turbofish syntax, and named arguments.
///
/// `::<_>` sets `infer_type`; any other turbofish type is kept in
/// `explicit_type` (and may itself contain `_` placeholders to substitute).
#[derive(Clone, Debug)]
pub struct ValidatorAttr {
    /// The validator path segments; at least one.
    pub validator: Vec<String>,
    /// Whether the invocation used `::<_>` for full type inference.
    pub infer_type: bool,
    /// The explicit turbofish type, when one other than `_` was written.
    pub explicit_type: Option<TypeExpr>,
    /// Named arguments, in the order written.
    pub args: Vec<ArgPair>,
}

/// The mathematical model of a [`ValidatorAttr`].
pub struct ValidatorAttrV {
    pub validator: Seq<Seq<char>>,
    pub infer_type: bool,
    pub explicit_type: Option<TypeExprV>,
    pub args: Seq<ArgPairV>,
}

impl View for ValidatorAttr {
    type V = ValidatorAttrV;

    open spec fn view(&self) -> ValidatorAttrV {
        ValidatorAttrV {
            validator: self.validator.deep_view(),
            infer_type: self.infer_type,
            explicit_type: match self.explicit_type {
                Some(t) => Some(t@),
                None => None,
            },
            args: Seq::new(self.args.len() as nat, |i: int| self.args[i]@),
        }
    }
}

impl ValidatorAttrV {
    /// A well-formed invocation has at least one path segment.
    pub open spec fn wf(self) -> bool {
        self.validator.len() > 0
    }

    /// The simple name: the last path segment.
    pub open spec fn spec_name(self) -> Seq<char> {
        self.validator.last()
    }
}

impl ValidatorAttr {
    /// Returns the simple name of the validator: the last segment of the
    /// path, as used for duplicate detection and generated member names.
    pub fn name(&self) -> (r: &String)
        requires
            self@.wf(),
        ensures
            r@ == self@.spec_name(),
    {
        &self.validator[self.validator.len() - 1]
    }

    /// Returns whether this invocation carries any named arguments.
    pub fn has_args(&self) -> (r: bool)
        ensures
            r == (self@.args.len() > 0),
    {
        self.args.len() > 0
    }

    /// Returns whether this invocation uses full type inference (`::<_>`).
    pub fn uses_type_inference(&self) -> (r: bool)
        ensures
            r == self@.infer_type,
    {
        self.infer_type
    }

    /// Returns whether this invocation has an explicit type parameter.
    pub fn has_explicit_type(&self) -> (r: bool)
        ensures
            r == self@.explicit_type.is_some(),
    {
        self.explicit_type.is_some()
    }
}

/// The content of one parsed annotation occurrence: validator invocations
/// for the field itself and for its elements (from `each(...)`), or one of
/// the modifiers `skip`, `nested`, `newtype`.
#[derive(Clone, Debug)]
pub struct KorumaAttr {
    /// Validators applied to the field's own value.
    pub field_validators: Vec<ValidatorAttr>,
    /// Validators applied to each element of a collection (from `each(...)`).
    pub element_validators: Vec<ValidatorAttr>,
    /// Whether this occurrence is the `skip` modifier.
    pub is_skip: bool,
    /// Whether this occurrence is the `nested` modifier.
    pub is_nested: bool,
    /// Whether this occurrence is the `newtype` modifier.
    pub is_newtype: bool,
}

/// The mathematical model of a [`KorumaAttr`].
pub struct KorumaAttrV {
    pub field_validators: Seq<ValidatorAttrV>,
    pub element_validators: Seq<ValidatorAttrV>,
    pub is_skip: bool,
    pub is_nested: bool,
    pub is_newtype: bool,
}

impl View for KorumaAttr {
    type V = KorumaAttrV;

    open spec fn view(&self) -> KorumaAttrV {
        KorumaAttrV {
            field_validators: Seq::new(
                self.field_validators.len() as nat,
                |i: int| self.field_validators[i]@,
            ),
            element_validators: Seq::new(
                self.element_validators.len() as nat,
                |i: int| self.element_validators[i]@,
            ),
            is_skip: self.is_skip,
            is_nested: self.is_nested,
            is_newtype: self.is_newtype,
        }
    }
}

impl KorumaAttrV {
    /// The model of an occurrence carrying no validators and no modifier.
    pub open spec fn is_plain_empty(self) -> bool {
        &&& self.field_validators.len() == 0
        &&& self.element_validators.len() == 0
        &&& !self.is_skip
        &&& !self.is_nested
        &&& !self.is_newtype
    }
}

impl KorumaAttr {
    /// An occurrence with no validators and no modifier set.
    pub fn empty() -> (r: KorumaAttr)
        ensures
            r@.is_plain_empty(),
    {
        KorumaAttr {
            field_validators: Vec::new(),
            element_validators: Vec::new(),
            is_skip: false,
            is_nested: false,
            is_newtype: false,
        }
    }

    /// Returns whether this occurrence carries any validators, on either
    /// the field slot or the element slot.
    pub fn has_validators(&self) -> (r: bool)
        ensures
            r == (self@.field_validators.len() > 0 || self@.element_validators.len() > 0),
    {
        self.field_validators.len() > 0 || self.element_validators.len() > 0
    }

    /// Returns whether this occurrence is one of the modifiers
    /// `skip`, `nested` or `newtype`.
    pub fn is_modifier(&self) -> (r: bool)
        ensures
            r == (self@.is_skip || self@.is_nested || self@.is_newtype),
    {
        self.is_skip || self.is_nested || self.is_newtype
    }
}

/// Struct-level options parsed from the record's own annotation:
/// a validating constructor (`try_new`) and the newtype wrapper marker.
#[derive(Clone, Copy, Debug, PartialEq, Eq, Structural)]
pub struct StructOptions {
    /// Generate a validating constructor taking the record's fields.
    pub try_new: bool,
    /// Treat the record as a single-field newtype wrapper whose error is
    /// exposed transparently.
    pub newtype: bool,
}

impl Default for StructOptions {
    /// No options chosen.
    fn default() -> (r: Self)
        ensures
            !r.try_new && !r.newtype,
    {
        StructOptions { try_new: false, newtype: false }
    }
}

/// Everything known about one annotated field after aggregation: its name,
/// its declared type, its validators in both slots, and the modifiers.
#[derive(Clone, Debug)]
pub struct FieldInfo {
    /// The field name.
    pub name: String,
    /// The field's declared type.
    pub ty: TypeExpr,
    /// Validators for the field's own value.
    pub field_validators: Vec<ValidatorAttr>,
    /// Validators for each element of a collection-typed field.
    pub element_validators: Vec<ValidatorAttr>,
    /// Whether the field delegates to its own type's `validate`.
    pub is_nested: bool,
    /// Whether the field is a newtype wrapper with transparent error access.
    pub is_newtype: bool,
}

/// The mathematical model of a [`FieldInfo`].
pub struct FieldInfoV {
    pub name: Seq<char>,
    pub ty: TypeExprV,
    pub field_validators: Seq<ValidatorAttrV>,
    pub element_validators: Seq<ValidatorAttrV>,
    pub is_nested: bool,
    pub is_newtype: bool,
}

impl View for FieldInfo {
    type V = FieldInfoV;

    open spec fn view(&self) -> FieldInfoV {
        FieldInfoV {
            name: self.name@,
            ty: self.ty@,
            field_validators: Seq::new(
                self.field_validators.len() as nat,
                |i: int| self.field_validators[i]@,
            ),
            element_validators: Seq::new(
                self.element_validators.len() as nat,
                |i: int| self.element_validators[i]@,
            ),
            is_nested: self.is_nested,
            is_newtype: self.is_newtype,
        }
    }
}

impl FieldInfo {
    /// Returns whether this field has element validators (from `each(...)`).
    pub fn has_element_validators(&self) -> (r: bool)
        ensures
            r == (self@.element_validators.len() > 0),
    {
        self.element_validators.len() > 0
    }

    /// Returns whether this field has any validators, in either slot.
    pub fn has_validators(&self) -> (r: bool)
        ensures
            r == (self@.field_validators.len() > 0 || self@.element_validators.len() > 0),
    {
        self.field_validators.len() > 0 || self.element_validators.len() > 0
    }

    /// Returns whether this field delegates to its own type's `validate`.
    pub fn is_nested(&self) -> (r: bool)
        ensures
            r == self@.is_nested,
    {
        self.is_nested
    }

    /// Returns whether this field is a newtype wrapper.
    pub fn is_newtype(&self) -> (r: bool)
        ensures
            r == self@.is_newtype,
    {
        self.is_newtype
    }

    /// Returns the simple names of every validator on this field, field
    /// slot first, then element slot, each in written order.
    pub fn validator_names(&self) -> (r: Vec<String>)
        requires
            forall|i: int|
                0 <= i < self@.field_validators.len() ==> self@.field_validators[i].wf(),
            forall|i: int|
                0 <= i < self@.element_validators.len() ==> self@.element_validators[i].wf(),
        ensures
            r.deep_view() == Seq::new(
                self@.field_validators.len(),
                |i: int| self@.field_validators[i].spec_name(),
            ) + Seq::new(
                self@.element_validators.len(),
                |i: int| self@.element_validators[i].spec_name(),
            ),
    {
        proof {
            assert forall|k: int|
                0 <= k < self.field_validators.len() implies self.field_validators[k]@.wf() by {
                assert(self@.field_validators[k] == self.field_validators[k]@);
            }
            assert forall|k: int|
                0 <= k < self.element_validators.len() implies self.element_validators[k]@.wf() by {
                assert(self@.element_validators[k] == self.element_validators[k]@);
            }
        }
        let mut r: Vec<String> = Vec::new();
        let mut i: usize = 0;
        while i < self.field_validators.len()
            invariant
                0 <= i <= self.field_validators.len(),
                r.len() == i,
                forall|k: int| 0 <= k < i ==> r[k]@ == self.field_validators[k]@.spec_name(),
                forall|k: int|
                    0 <= k < self.field_validators.len() ==> self.field_validators[k]@.wf(),
            decreases self.field_validators.len() - i,
        {
            r.push(self.field_validators[i].name().clone());
            i = i + 1;
        }
        let ghost n = self.field_validators.len() as int;
        let mut j: usize = 0;
        while j < self.element_validators.len()
            invariant
                0 <= j <= self.element_validators.len(),
                r.len() == n + j,
                n == self.field_validators@.len(),
                forall|k: int| 0 <= k < n ==> r[k]@ == self.field_validators[k]@.spec_name(),
                forall|k: int|
                    0 <= k < j ==> r[n + k]@ == self.element_validators[k]@.spec_name(),
                forall|k: int|
                    0 <= k < self.element_validators.len() ==> self.element_validators[k]@.wf(),
            decreases self.element_validators.len() - j,
        {
            r.push(self.element_validators[j].name().clone());
            j = j + 1;
        }
        proof {
            let goal = Seq::new(
                self@.field_validators.len(),
                |k: int| self@.field_validators[k].spec_name(),
            ) + Seq::new(
                self@.element_validators.len(),
                |k: int| self@.element_validators[k].spec_name(),
            );
            assert forall|k: int| 0 <= k < r@.len() implies r.deep_view()[k] == goal[k] by {
                assert(r.deep_view()[k] == r[k]@);
                if k < n {
                    assert(self@.field_validators[k] == self.field_validators[k]@);
                } else {
                    assert(self@.element_validators[k - n] == self.element_validators[k - n]@);
                }
            }
            assert(r.deep_view() =~= goal);
        }
        r
    }
}

/// Why a piece of annotation text was refused, together with the position
/// (character offset) where the problem was noticed.
#[derive(Clone, Debug)]
pub enum SyntaxErrorKind {
    /// The text holds a character outside the ASCII range.
    NonAscii,
    /// An identifier was expected.
    ExpectedIdent,
    /// A specific punctuation character was expected.
    ExpectedChar { expected: char },
    /// A non-empty argument expression was expected.
    ExpectedExpr,
    /// The text ended where more input was required.
    UnexpectedEnd,
    /// Legacy generic syntax (`Validator<_>` without `::`): refused with a
    /// migration hint rather than silently misparsed.
    LegacyGenericSyntax,
    /// Input remained after a complete annotation was read.
    TrailingInput,
    /// An unknown struct-level option name; the offender is carried so the
    /// message can name it beside the allowed set.
    UnknownStructOption { name: String },
}

/// A syntax error: where it was noticed and what was wrong.
#[derive(Clone, Debug)]
pub struct SyntaxError {
    /// Character offset into the annotation text.
    pub position: usize,
    /// What was wrong.
    pub kind: SyntaxErrorKind,
}

/// The outcome of reading one field's annotation occurrences.
#[derive(Debug)]
pub enum ParseFieldResult {
    /// The field carries validators or a delegating modifier.
    Valid(FieldInfo),
    /// The field is skipped: no annotation, no validators, or `skip`.
    Skip,
    /// The annotations were malformed or held a duplicate validator name.
    Error(FieldParseError),
}

/// Why a field's annotations were refused.
#[derive(Clone, Debug)]
pub enum FieldParseError {
    /// One occurrence failed to parse.
    Syntax(SyntaxError),
    /// The same validator name appeared twice in one slot on this field.
    DuplicateValidator { name: String, field: String },
}

impl ParseFieldResult {
    /// Returns the field info if this is a `Valid` result.
    pub fn valid(self) -> (r: Option<FieldInfo>)
        ensures
            r.is_some() == self is Valid,
            self matches ParseFieldResult::Valid(info) ==> r == Some(info),
    {
        match self {
            ParseFieldResult::Valid(info) => Some(info),
            _ => None,
        }
    }

    /// Returns the error if this is an `Error` result.
    pub fn error(self) -> (r: Option<FieldParseError>)
        ensures
            r.is_some() == self is Error,
            self matches ParseFieldResult::Error(e) ==> r == Some(e),
    {
        match self {
            ParseFieldResult::Error(e) => Some(e),
            _ => None,
        }
    }

    /// Returns true if this is a `Valid` result.
    pub fn is_valid(&self) -> (r: bool)
        ensures
            r == (self is Valid),
    {
        matches!(self, ParseFieldResult::Valid(_))
    }

    /// Returns true if this is a `Skip` result.
    pub fn is_skip(&self) -> (r: bool)
        ensures
            r == (self is Skip),
    {
        matches!(self, ParseFieldResult::Skip)
    }

    /// Returns true if this is an `Error` result.
    pub fn is_error(&self) -> (r: bool)
        ensures
            r == (self is Error),
    {
        matches!(self, ParseFieldResult::Error(_))
    }
}

} // verus!
