//! The code generator: from a record-shape descriptor — the record's name
//! and its named fields with declared types and raw annotation text — it
//! emits the model of the generated code: per-field error types with one
//! optional slot per invocation, element error types and failure
//! enumerations for collection fields, the aggregate record error, the
//! per-field validation plans behind the `validate` body, and the
//! struct-level conveniences (validating constructor, transparent newtype
//! error access).
//!
//! Generation-time failures are terminal: a syntax error or duplicate
//! validator in some field's annotations, an unknown struct-level option,
//! a record without fields, or the `newtype` option on a record whose
//! annotated-field count is not one.

use vstd::prelude::*;
use vstd::string::StringExecFns;

use crate::casing::{snake_of, to_snake_case, to_upper_camel_case, upper_camel_of};
use crate::ast::{
    FieldInfo, FieldInfoV, FieldParseError, ParseFieldResult, StructOptions, SyntaxError,
    TypeExpr, TypeExprV, ValidatorAttr, ValidatorAttrV,
};
use crate::field::{parse_field, sp_parse_field, ParseFieldResultV};
use crate::parser::{sp_parse_options, SyntaxErrorV};
use crate::resolve::{is_option_type, validator_type_for_field, vec_inner_type};

verus! {

/// One field of the record-shape descriptor: its name, its declared type,
/// and the raw text of each of its annotation occurrences.
#[derive(Debug)]
pub struct FieldInput {
    pub name: String,
    pub ty: TypeExpr,
    pub occurrences: Vec<String>,
}

/// The mathematical model of a [`FieldInput`].
pub struct FieldInputV {
    pub name: Seq<char>,
    pub ty: TypeExprV,
    pub occurrences: Seq<Seq<char>>,
}

impl View for FieldInput {
    type V = FieldInputV;

    open spec fn view(&self) -> FieldInputV {
        FieldInputV {
            name: self.name@,
            ty: self.ty@,
            occurrences: self.occurrences.deep_view(),
        }
    }
}

/// The record-shape descriptor: the record's name, its named fields in
/// declaration order, and the raw text of its own struct-level annotation
/// if it carries one.
#[derive(Debug)]
pub struct RecordInput {
    pub name: String,
    pub fields: Vec<FieldInput>,
    pub options_text: Option<String>,
}

/// A validator argument as it reaches the generated construction call: a
/// bare identifier names a sibling field and becomes an access to it; any
/// other expression is passed through verbatim.
#[derive(Debug, Clone)]
pub enum ArgValueModel {
    SelfField(String),
    Verbatim(String),
}

/// The model of an [`ArgValueModel`].
pub enum ArgValueModelV {
    SelfField(Seq<char>),
    Verbatim(Seq<char>),
}

impl View for ArgValueModel {
    type V = ArgValueModelV;

    open spec fn view(&self) -> ArgValueModelV {
        match self {
            ArgValueModel::SelfField(s) => ArgValueModelV::SelfField(s@),
            ArgValueModel::Verbatim(s) => ArgValueModelV::Verbatim(s@),
        }
    }
}

/// How one argument value is handed through: a bare identifier becomes a
/// sibling-field access, anything else stays verbatim.
pub open spec fn sp_arg_value(value: Seq<char>) -> ArgValueModelV {
    if crate::parser::sp_whole_ident(value) {
        ArgValueModelV::SelfField(value)
    } else {
        ArgValueModelV::Verbatim(value)
    }
}

/// One generated slot: the generated member name, the validator path and
/// resolved type instantiation, and the construction arguments.
#[derive(Debug)]
pub struct SlotModel {
    /// The generated member name: the validator's simple name in
    /// snake_case.
    pub member: String,
    /// The validator path as written.
    pub validator: Vec<String>,
    /// The resolved type instantiation; `None` for a non-generic use.
    pub ty: Option<TypeExpr>,
    /// Whether the invocation asked for the full optional type
    /// (`::<Option<_>>`): in the generated `validate` body such a check
    /// runs on the field's value as it stands, absent or present, rather
    /// than inside the presence test.
    pub wants_full_type: bool,
    /// The construction arguments, in written order.
    pub args: Vec<(String, ArgValueModel)>,
}

/// The model of a [`SlotModel`].
pub struct SlotModelV {
    pub member: Seq<char>,
    pub validator: Seq<Seq<char>>,
    pub ty: Option<TypeExprV>,
    pub wants_full_type: bool,
    pub args: Seq<(Seq<char>, ArgValueModelV)>,
}

impl View for SlotModel {
    type V = SlotModelV;

    open spec fn view(&self) -> SlotModelV {
        SlotModelV {
            member: self.member@,
            validator: self.validator.deep_view(),
            ty: match self.ty {
                Some(t) => Some(t@),
                None => None,
            },
            wants_full_type: self.wants_full_type,
            args: Seq::new(self.args.len() as nat, |i: int| (self.args[i].0@, self.args[i].1@)),
        }
    }
}

/// The slot generated for one invocation on one field.
pub open spec fn sp_slot(v: ValidatorAttrV, field_ty: TypeExprV, each: bool) -> SlotModelV {
    SlotModelV {
        member: snake_of(v.spec_name()),
        validator: v.validator,
        ty: v.resolved_type(field_ty, each),
        wants_full_type: v.wants_full_type(),
        args: Seq::new(v.args.len(), |i: int| (v.args[i].name, sp_arg_value(v.args[i].value))),
    }
}

/// The slots generated for a list of invocations on one field.
pub open spec fn sp_slots_of(vs: Seq<ValidatorAttrV>, field_ty: TypeExprV, each: bool) -> Seq<
    SlotModelV,
> {
    Seq::new(vs.len(), |i: int| sp_slot(vs[i], field_ty, each))
}

/// How a generated field behaves in the `validate` body.
#[derive(Debug, Clone, Copy, PartialEq, Eq, Structural)]
pub enum FieldKind {
    /// Its own slots are checked.
    Plain,
    /// The field delegates to its value's own `validate`, whose error
    /// type is reused directly.
    Nested,
    /// As `Nested`, but behind a wrapper with transparent access.
    Newtype,
}

/// The generated element-error surface of a collection field: the
/// element error type, the failure enumeration over its slots, and the
/// slots themselves.
#[derive(Debug)]
pub struct ElementModel {
    pub error_name: String,
    pub enum_name: String,
    pub slots: Vec<SlotModel>,
}

/// The model of an [`ElementModel`].
pub struct ElementModelV {
    pub error_name: Seq<char>,
    pub enum_name: Seq<char>,
    pub slots: Seq<SlotModelV>,
}

impl View for ElementModel {
    type V = ElementModelV;

    open spec fn view(&self) -> ElementModelV {
        ElementModelV {
            error_name: self.error_name@,
            enum_name: self.enum_name@,
            slots: Seq::new(self.slots.len() as nat, |i: int| self.slots[i]@),
        }
    }
}

/// The generated surface of one annotated field.
#[derive(Debug)]
pub struct FieldModel {
    /// The field's name.
    pub field_name: String,
    /// The per-field error type's name.
    pub error_name: String,
    /// The failure enumeration's name, over the field-level slots.
    pub enum_name: String,
    /// The field-level slots, one per invocation, in written order.
    pub slots: Vec<SlotModel>,
    /// The element surface, when the field has element invocations.
    pub element: Option<ElementModel>,
    /// Plain checking, or delegation to the value's own `validate`.
    pub kind: FieldKind,
    /// Whether the `validate` body only enters this field when present.
    pub optional: bool,
    /// Whether absent elements are skipped during element iteration.
    pub elem_optional: bool,
}

/// The model of a [`FieldModel`].
pub struct FieldModelV {
    pub field_name: Seq<char>,
    pub error_name: Seq<char>,
    pub enum_name: Seq<char>,
    pub slots: Seq<SlotModelV>,
    pub element: Option<ElementModelV>,
    pub kind: FieldKind,
    pub optional: bool,
    pub elem_optional: bool,
}

impl View for FieldModel {
    type V = FieldModelV;

    open spec fn view(&self) -> FieldModelV {
        FieldModelV {
            field_name: self.field_name@,
            error_name: self.error_name@,
            enum_name: self.enum_name@,
            slots: Seq::new(self.slots.len() as nat, |i: int| self.slots[i]@),
            element: match self.element {
                Some(ref e) => Some(e@),
                None => None,
            },
            kind: self.kind,
            optional: self.optional,
            elem_optional: self.elem_optional,
        }
    }
}

/// The field surface generated for one aggregated field.
pub open spec fn sp_field_model(struct_name: Seq<char>, info: FieldInfoV) -> FieldModelV {
    let camel = upper_camel_of(info.name);
    FieldModelV {
        field_name: info.name,
        error_name: struct_name + camel + "KorumaValidationError"@,
        enum_name: struct_name + camel + "KorumaValidator"@,
        slots: sp_slots_of(info.field_validators, info.ty, false),
        element: if info.element_validators.len() > 0 {
            Some(
                ElementModelV {
                    error_name: struct_name + camel + "ElementKorumaValidationError"@,
                    enum_name: struct_name + camel + "ElementKorumaValidator"@,
                    slots: sp_slots_of(info.element_validators, info.ty, true),
                },
            )
        } else {
            None
        },
        kind: if info.is_nested {
            FieldKind::Nested
        } else if info.is_newtype {
            FieldKind::Newtype
        } else {
            FieldKind::Plain
        },
        optional: info.ty.is_option(),
        elem_optional: match info.ty.vec_inner() {
            Some(e) => e.is_option(),
            None => false,
        },
    }
}

/// The generated module for one record: the aggregate error type, one
/// field surface per annotated field in declaration order, and the
/// struct-level conveniences.
#[derive(Debug)]
pub struct GeneratedModule {
    pub record_name: String,
    pub error_name: String,
    pub fields: Vec<FieldModel>,
    pub has_try_new: bool,
    pub newtype_wrapper: bool,
}

/// The model of a [`GeneratedModule`].
pub struct GeneratedModuleV {
    pub record_name: Seq<char>,
    pub error_name: Seq<char>,
    pub fields: Seq<FieldModelV>,
    pub has_try_new: bool,
    pub newtype_wrapper: bool,
}

impl View for GeneratedModule {
    type V = GeneratedModuleV;

    open spec fn view(&self) -> GeneratedModuleV {
        GeneratedModuleV {
            record_name: self.record_name@,
            error_name: self.error_name@,
            fields: Seq::new(self.fields.len() as nat, |i: int| self.fields[i]@),
            has_try_new: self.has_try_new,
            newtype_wrapper: self.newtype_wrapper,
        }
    }
}

/// Why generation was aborted.
#[derive(Debug)]
pub enum GenerateError {
    /// Some field's annotation text was malformed.
    Syntax { field: String, error: SyntaxError },
    /// The same validator name twice in one slot on one field.
    Duplicate { name: String, field: String },
    /// The record has no named fields at all.
    NoFields,
    /// The `newtype` option needs exactly one annotated field.
    NewtypeCardinality { found: usize },
    /// An unknown struct-level option name.
    UnknownOption { error: SyntaxError },
}

/// The model of a [`GenerateError`].
pub enum GenerateErrorV {
    Syntax { field: Seq<char>, error: SyntaxErrorV },
    Duplicate { name: Seq<char>, field: Seq<char> },
    NoFields,
    NewtypeCardinality { found: int },
    UnknownOption { error: SyntaxErrorV },
}

impl View for GenerateError {
    type V = GenerateErrorV;

    open spec fn view(&self) -> GenerateErrorV {
        match self {
            GenerateError::Syntax { field, error } => GenerateErrorV::Syntax {
                field: field@,
                error: error@,
            },
            GenerateError::Duplicate { name, field } => GenerateErrorV::Duplicate {
                name: name@,
                field: field@,
            },
            GenerateError::NoFields => GenerateErrorV::NoFields,
            GenerateError::NewtypeCardinality { found } => GenerateErrorV::NewtypeCardinality {
                found: *found as int,
            },
            GenerateError::UnknownOption { error } => GenerateErrorV::UnknownOption {
                error: error@,
            },
        }
    }
}

/// The options parse with the absent annotation defaulting to no options.
pub open spec fn sp_options_of(options_text: Option<Seq<char>>) -> Result<
    (bool, bool),
    SyntaxErrorV,
> {
    match options_text {
        None => Ok((false, false)),
        Some(t) => if vstd::utf8::is_ascii_chars(t) {
            sp_parse_options(t)
        } else {
            Err(SyntaxErrorV::NonAscii)
        },
    }
}

/// The aggregation outcomes of the fields from `i` on, stopping at the
/// first failure: the `Valid` field infos in declaration order.
pub open spec fn sp_gen_fields(fields: Seq<FieldInputV>, i: int) -> Result<
    Seq<FieldInfoV>,
    GenerateErrorV,
>
    decreases fields.len() - i,
{
    if !(0 <= i < fields.len()) {
        Ok(Seq::empty())
    } else {
        match sp_parse_field(fields[i].name, fields[i].ty, fields[i].occurrences) {
            ParseFieldResultV::SyntaxError(e) => Err(
                GenerateErrorV::Syntax { field: fields[i].name, error: e },
            ),
            ParseFieldResultV::Duplicate { name, field } => Err(
                GenerateErrorV::Duplicate { name, field },
            ),
            ParseFieldResultV::Skip => sp_gen_fields(fields, i + 1),
            ParseFieldResultV::Valid(info) => match sp_gen_fields(fields, i + 1) {
                Ok(rest) => Ok(seq![info] + rest),
                Err(e) => Err(e),
            },
        }
    }
}

/// The whole generation outcome for a record-shape descriptor.
pub open spec fn sp_expand(
    name: Seq<char>,
    fields: Seq<FieldInputV>,
    options_text: Option<Seq<char>>,
) -> Result<GeneratedModuleV, GenerateErrorV> {
    match sp_options_of(options_text) {
        Err(e) => Err(GenerateErrorV::UnknownOption { error: e }),
        Ok((try_new, newtype)) => {
            if fields.len() == 0 {
                Err(GenerateErrorV::NoFields)
            } else {
                match sp_gen_fields(fields, 0) {
                    Err(e) => Err(e),
                    Ok(infos) => {
                        if newtype && infos.len() != 1 {
                            Err(GenerateErrorV::NewtypeCardinality { found: infos.len() as int })
                        } else {
                            Ok(
                                GeneratedModuleV {
                                    record_name: name,
                                    error_name: name + "KorumaValidationError"@,
                                    fields: Seq::new(
                                        infos.len(),
                                        |i: int| sp_field_model(name, infos[i]),
                                    ),
                                    has_try_new: try_new,
                                    newtype_wrapper: newtype,
                                },
                            )
                        }
                    },
                }
            }
        },
    }
}

/// Classifies one argument value: a bare identifier names a sibling field
/// and becomes an access to it; anything else passes through verbatim.
pub fn transform_arg_value(value: &String) -> (r: ArgValueModel)
    ensures
        r@ == sp_arg_value(value@),
{
    if crate::parser::expr_is_simple_ident(value.as_str()) {
        ArgValueModel::SelfField(value.clone())
    } else {
        ArgValueModel::Verbatim(value.clone())
    }
}

/// Builds the generated slot for one invocation on one field.
fn build_slot(v: &ValidatorAttr, field_ty: &TypeExpr, each: bool) -> (r: SlotModel)
    requires
        v@.wf(),
    ensures
        r@ == sp_slot(v@, field_ty@, each),
{
    let member = to_snake_case(v.name().as_str());
    let ty = validator_type_for_field(v, field_ty, each);
    let mut validator: Vec<String> = Vec::new();
    let mut i: usize = 0;
    while i < v.validator.len()
        invariant
            0 <= i <= v.validator.len(),
            validator.len() == i,
            forall|k: int| 0 <= k < i ==> validator[k]@ == v.validator[k]@,
        decreases v.validator.len() - i,
    {
        validator.push(v.validator[i].clone());
        i = i + 1;
    }
    let mut args: Vec<(String, ArgValueModel)> = Vec::new();
    let mut j: usize = 0;
    while j < v.args.len()
        invariant
            0 <= j <= v.args.len(),
            args.len() == j,
            forall|k: int|
                0 <= k < j ==> args[k].0@ == v.args[k]@.name && args[k].1@ == sp_arg_value(
                    v.args[k]@.value,
                ),
        decreases v.args.len() - j,
    {
        let name = v.args[j].name.clone();
        let value = transform_arg_value(&v.args[j].value);
        args.push((name, value));
        j = j + 1;
    }
    let wants_full_type = crate::resolve::validator_wants_full_type(v);
    let r = SlotModel { member, validator, ty, wants_full_type, args };
    proof {
        assert(r@.validator =~= v@.validator) by {
            assert forall|k: int| 0 <= k < v.validator.len() implies r.validator.deep_view()[k]
                == v@.validator[k] by {
                assert(r.validator.deep_view()[k] == r.validator[k]@);
                assert(v@.validator[k] == v.validator[k]@);
            }
        }
        assert(r@.args =~= sp_slot(v@, field_ty@, each).args) by {
            assert forall|k: int| 0 <= k < v.args.len() implies r@.args[k] == sp_slot(
                v@,
                field_ty@,
                each,
            ).args[k] by {
                assert(r@.args[k] == (r.args[k].0@, r.args[k].1@));
                assert(v@.args[k] == v.args[k]@);
            }
        }
    }
    r
}

/// Builds the generated slots for all invocations of one slot class.
fn build_slots(vs: &Vec<ValidatorAttr>, field_ty: &TypeExpr, each: bool) -> (r: Vec<SlotModel>)
    requires
        forall|k: int| 0 <= k < vs.len() ==> vs[k]@.wf(),
    ensures
        r.len() == vs.len(),
        forall|k: int| 0 <= k < vs.len() ==> r[k]@ == sp_slot(vs[k]@, field_ty@, each),
{
    let mut r: Vec<SlotModel> = Vec::new();
    let mut i: usize = 0;
    while i < vs.len()
        invariant
            0 <= i <= vs.len(),
            r.len() == i,
            forall|k: int| 0 <= k < vs.len() ==> vs[k]@.wf(),
            forall|k: int| 0 <= k < i ==> r[k]@ == sp_slot(vs[k]@, field_ty@, each),
        decreases vs.len() - i,
    {
        r.push(build_slot(&vs[i], field_ty, each));
        i = i + 1;
    }
    r
}

/// Builds the generated surface of one aggregated field.
fn build_field_model(struct_name: &String, info: &FieldInfo) -> (r: FieldModel)
    requires
        forall|k: int| 0 <= k < info@.field_validators.len() ==> info@.field_validators[k].wf(),
        forall|k: int|
            0 <= k < info@.element_validators.len() ==> info@.element_validators[k].wf(),
    ensures
        r@ == sp_field_model(struct_name@, info@),
{
    proof {
        assert forall|k: int|
            0 <= k < info.field_validators.len() implies info.field_validators[k]@.wf() by {
            assert(info@.field_validators[k] == info.field_validators[k]@);
        }
        assert forall|k: int|
            0 <= k < info.element_validators.len() implies info.element_validators[k]@.wf() by {
            assert(info@.element_validators[k] == info.element_validators[k]@);
        }
    }
    let camel = to_upper_camel_case(info.name.as_str());
    let error_name = struct_name.clone().concat(camel.as_str()).concat("KorumaValidationError");
    let enum_name = struct_name.clone().concat(camel.as_str()).concat("KorumaValidator");
    let slots = build_slots(&info.field_validators, &info.ty, false);
    let element = if info.element_validators.len() > 0 {
        let e_error_name = struct_name.clone().concat(camel.as_str()).concat(
            "ElementKorumaValidationError",
        );
        let e_enum_name = struct_name.clone().concat(camel.as_str()).concat(
            "ElementKorumaValidator",
        );
        let e_slots = build_slots(&info.element_validators, &info.ty, true);
        Some(ElementModel { error_name: e_error_name, enum_name: e_enum_name, slots: e_slots })
    } else {
        None
    };
    let kind = if info.is_nested {
        FieldKind::Nested
    } else if info.is_newtype {
        FieldKind::Newtype
    } else {
        FieldKind::Plain
    };
    let optional = is_option_type(&info.ty);
    let elem_optional = match vec_inner_type(&info.ty) {
        Some(e) => is_option_type(e),
        None => false,
    };
    let r = FieldModel {
        field_name: info.name.clone(),
        error_name,
        enum_name,
        slots,
        element,
        kind,
        optional,
        elem_optional,
    };
    proof {
        let goal = sp_field_model(struct_name@, info@);
        assert(r@.slots =~= goal.slots) by {
            assert forall|k: int| 0 <= k < r@.slots.len() implies r@.slots[k] == goal.slots[k] by {
                assert(r@.slots[k] == r.slots[k]@);
                assert(info@.field_validators[k] == info.field_validators[k]@);
            }
        }
        match r@.element {
            Some(em) => {
                assert(em.slots =~= goal.element->Some_0.slots) by {
                    assert forall|k: int| 0 <= k < em.slots.len() implies em.slots[k]
                        == goal.element->Some_0.slots[k] by {
                        assert(info@.element_validators[k] == info.element_validators[k]@);
                    }
                }
                assert(em =~= goal.element->Some_0) by {
                    assert(em.error_name == goal.element->Some_0.error_name);
                }
            },
            None => {},
        }
        assert(r@ =~= goal) by {
            assert(r@.slots == goal.slots);
        }
    }
    r
}

/// Generates the full module for one record-shape descriptor, or aborts
/// with the first generation-time failure: an unknown struct-level option,
/// a malformed or duplicate-carrying field annotation (fields read in
/// declaration order), a record without fields, or a `newtype` option on
/// a record whose annotated-field count is not one. Requesting the
/// validating constructor always succeeds.
#[verifier::rlimit(100)]
pub fn expand_koruma(input: &RecordInput) -> (r: Result<GeneratedModule, GenerateError>)
    ensures
        match r {
            Ok(m) => sp_expand(
                input.name@,
                Seq::new(input.fields.len() as nat, |i: int| input.fields[i]@),
                match input.options_text {
                    Some(ref t) => Some(t@),
                    None => None,
                },
            ) == Ok::<_, GenerateErrorV>(m@),
            Err(e) => sp_expand(
                input.name@,
                Seq::new(input.fields.len() as nat, |i: int| input.fields[i]@),
                match input.options_text {
                    Some(ref t) => Some(t@),
                    None => None,
                },
            ) == Err::<GeneratedModuleV, _>(e@),
        },
{
    let ghost fieldsv = Seq::new(input.fields.len() as nat, |i: int| input.fields[i]@);
    let options = match &input.options_text {
        None => StructOptions { try_new: false, newtype: false },
        Some(t) => match crate::parser::parse_struct_options(t.as_str()) {
            Ok(o) => o,
            Err(e) => {
                return Err(GenerateError::UnknownOption { error: e });
            },
        },
    };
    if input.fields.len() == 0 {
        return Err(GenerateError::NoFields);
    }
    let mut infos: Vec<FieldInfo> = Vec::new();
    let mut i: usize = 0;
    while i < input.fields.len()
        invariant
            0 <= i <= input.fields.len(),
            input.fields.len() > 0,
            sp_options_of(
                match input.options_text {
                    Some(ref t) => Some(t@),
                    None => None,
                },
            ) == Ok::<_, SyntaxErrorV>((options.try_new, options.newtype)),
            fieldsv == Seq::new(input.fields.len() as nat, |k: int| input.fields[k]@),
            fieldsv.len() == input.fields.len(),
            sp_gen_fields(fieldsv, 0) matches Ok(v) ==> sp_gen_fields(fieldsv, i as int)
                matches Ok(rest) && v == Seq::new(
                infos.len() as nat,
                |k: int| infos[k]@,
            ) + rest,
            sp_gen_fields(fieldsv, 0) is Err ==> sp_gen_fields(fieldsv, i as int) is Err
                && sp_gen_fields(fieldsv, 0) == sp_gen_fields(fieldsv, i as int),
            forall|k: int|
                0 <= k < infos.len() ==> (forall|m: int|
                    0 <= m < #[trigger] infos[k]@.field_validators.len()
                        ==> infos[k]@.field_validators[m].wf()),
            forall|k: int|
                0 <= k < infos.len() ==> (forall|m: int|
                    0 <= m < #[trigger] infos[k]@.element_validators.len()
                        ==> infos[k]@.element_validators[m].wf()),
        decreases input.fields.len() - i,
    {
        proof {
            assert(fieldsv[i as int] == input.fields[i as int]@);
        }
        let f = &input.fields[i];
        match parse_field(&f.name, &f.ty, &f.occurrences) {
            ParseFieldResult::Error(FieldParseError::Syntax(e)) => {
                let r = GenerateError::Syntax { field: f.name.clone(), error: e };
                proof {
                    assert(sp_gen_fields(fieldsv, i as int) == Err::<Seq<FieldInfoV>, _>(r@));
                    assert(sp_gen_fields(fieldsv, 0) == Err::<Seq<FieldInfoV>, _>(r@));
                }
                return Err(r);
            },
            ParseFieldResult::Error(FieldParseError::DuplicateValidator { name, field }) => {
                let r = GenerateError::Duplicate { name, field };
                proof {
                    assert(sp_gen_fields(fieldsv, i as int) == Err::<Seq<FieldInfoV>, _>(r@));
                    assert(sp_gen_fields(fieldsv, 0) == Err::<Seq<FieldInfoV>, _>(r@));
                }
                return Err(r);
            },
            ParseFieldResult::Skip => {},
            ParseFieldResult::Valid(info) => {
                let ghost before = Seq::new(infos.len() as nat, |k: int| infos[k]@);
                let ghost infov = info@;
                infos.push(info);
                proof {
                    assert(Seq::new(infos.len() as nat, |k: int| infos[k]@) =~= before.push(
                        infov,
                    ));
                }
            },
        }
        i = i + 1;
    }
    let ghost infosv = Seq::new(infos.len() as nat, |k: int| infos[k]@);
    proof {
        assert(sp_gen_fields(fieldsv, i as int) == Ok::<Seq<FieldInfoV>, GenerateErrorV>(
            Seq::empty(),
        ));
        assert(sp_gen_fields(fieldsv, 0) matches Ok(v) && v =~= infosv);
    }
    if options.newtype && infos.len() != 1 {
        return Err(GenerateError::NewtypeCardinality { found: infos.len() });
    }
    let error_name = input.name.clone().concat("KorumaValidationError");
    let mut fields: Vec<FieldModel> = Vec::new();
    let mut j: usize = 0;
    while j < infos.len()
        invariant
            0 <= j <= infos.len(),
            infosv == Seq::new(infos.len() as nat, |k: int| infos[k]@),
            infosv.len() == infos.len(),
            fields.len() == j,
            forall|k: int| 0 <= k < j ==> fields[k]@ == sp_field_model(input.name@, infosv[k]),
            forall|k: int|
                0 <= k < infos.len() ==> (forall|m: int|
                    0 <= m < #[trigger] infos[k]@.field_validators.len()
                        ==> infos[k]@.field_validators[m].wf()),
            forall|k: int|
                0 <= k < infos.len() ==> (forall|m: int|
                    0 <= m < #[trigger] infos[k]@.element_validators.len()
                        ==> infos[k]@.element_validators[m].wf()),
        decreases infos.len() - j,
    {
        proof {
            assert(infosv[j as int] == infos[j as int]@);
        }
        fields.push(build_field_model(&input.name, &infos[j]));
        j = j + 1;
    }
    let m = GeneratedModule {
        record_name: input.name.clone(),
        error_name,
        fields,
        has_try_new: options.try_new,
        newtype_wrapper: options.newtype,
    };
    proof {
        let goal = sp_expand(
            input.name@,
            fieldsv,
            match input.options_text {
                Some(ref t) => Some(t@),
                None => None,
            },
        );
        assert(m@.fields =~= goal->Ok_0.fields) by {
            assert forall|k: int| 0 <= k < m@.fields.len() implies m@.fields[k]
                == goal->Ok_0.fields[k] by {
                assert(m@.fields[k] == m.fields[k]@);
            }
        }
        assert(goal == Ok::<GeneratedModuleV, GenerateErrorV>(m@));
    }
    Ok(m)
}

} // verus!
