//! The runtime semantics of a generated `validate` body, as one generic
//! engine: a record plan lists, per field and in declaration order, the
//! checks of the field slot (split into checks of the unwrapped value and
//! full-optional checks that see presence or absence themselves) and of
//! the element slot, together with the field's optionality; a record
//! value lists the field values. Validation
//! visits every field and every check — failures are collected, never
//! short-circuited — and fills one slot per failing check, plus an ordered
//! `(index, element error)` list for collection fields.

use vstd::prelude::*;

use crate::traits::ValidationError;
use vstd::string::StrSliceExecFns;

verus! {

/// A plain runtime value: an integer, a text, a list of values, or the
/// absent optional value.
#[derive(Debug)]
pub enum Value {
    Int(i64),
    Text(String),
    List(Vec<Value>),
    Null,
}

/// The mathematical model of a [`Value`].
pub enum ValueV {
    Int(int),
    Text(Seq<char>),
    List(Seq<ValueV>),
    Null,
}

impl Value {
    /// The model of one value.
    pub open spec fn model(self) -> ValueV
        decreases self,
    {
        match self {
            Value::Int(i) => ValueV::Int(i as int),
            Value::Text(s) => ValueV::Text(s@),
            Value::List(vs) => ValueV::List(Value::models(vs@)),
            Value::Null => ValueV::Null,
        }
    }

    /// The models of a list of values, element by element.
    pub open spec fn models(vs: Seq<Value>) -> Seq<ValueV>
        decreases vs,
    {
        if vs.len() == 0 {
            Seq::empty()
        } else {
            seq![vs[0].model()] + Value::models(vs.skip(1))
        }
    }
}

/// `Value::models` maps the sequence element by element.
pub broadcast proof fn lemma_value_models(vs: Seq<Value>)
    ensures
        #[trigger] Value::models(vs).len() == vs.len(),
        forall|i: int| 0 <= i < vs.len() ==> Value::models(vs)[i] == vs[i].model(),
    decreases vs.len(),
{
    if vs.len() > 0 {
        lemma_value_models(vs.skip(1));
    }
}

impl View for Value {
    type V = ValueV;

    open spec fn view(&self) -> ValueV {
        self.model()
    }
}

/// Clones every value of a list, keeping each model.
fn clone_value_vec(vs: &Vec<Value>) -> (r: Vec<Value>)
    ensures
        r.len() == vs.len(),
        forall|k: int| 0 <= k < vs.len() ==> r[k]@ == vs[k]@,
    decreases vs@,
{
    let mut cloned: Vec<Value> = Vec::new();
    let mut i: usize = 0;
    while i < vs.len()
        invariant
            0 <= i <= vs.len(),
            cloned.len() == i,
            forall|k: int| 0 <= k < i ==> cloned[k]@ == vs[k]@,
        decreases vs.len() - i,
    {
        proof {
            assert(decreases_to!(vs@ => vs@[i as int]));
        }
        cloned.push(vs[i].clone());
        i = i + 1;
    }
    cloned
}

impl Clone for Value {
    /// Cloning keeps the model.
    fn clone(&self) -> (r: Self)
        ensures
            r@ == self@,
        decreases *self,
    {
        match self {
            Value::Int(i) => Value::Int(*i),
            Value::Text(s) => Value::Text(s.clone()),
            Value::Null => Value::Null,
            Value::List(vs) => {
                proof {
                    assert(decreases_to!(*self => self->List_0));
                    assert(decreases_to!(self->List_0 => self->List_0@));
                }
                let r = Value::List(clone_value_vec(vs));
                proof {
                    lemma_value_models(r->List_0@);
                    lemma_value_models(self->List_0@);
                    assert(Value::models(r->List_0@) =~= Value::models(self->List_0@));
                }
                r
            },
        }
    }
}

/// One concrete check a plan can ask for. The rule also serves as the
/// error context stored in a failed slot.
#[derive(Debug, Clone, Copy, PartialEq, Eq, Structural)]
pub enum Rule {
    /// The value is an integer within `min ..= max`.
    IntRange { min: i64, max: i64 },
    /// The value's length (a text's bytes, a list's elements) is within
    /// `min ..= max`.
    LenRange { min: usize, max: usize },
    /// The value is a non-empty text or list.
    NonEmpty,
    /// The value is an even integer.
    Even,
    /// The value is present (not the absent optional value). Meant for
    /// the full-optional slot, which sees absence itself.
    Present,
}

/// Whether a rule holds of a value.
pub open spec fn rule_holds(rule: Rule, v: ValueV) -> bool {
    match rule {
        Rule::IntRange { min, max } => v matches ValueV::Int(i) && min <= i <= max,
        Rule::LenRange { min, max } => match v {
            ValueV::Text(s) => min <= vstd::utf8::encode_utf8(s).len() <= max,
            ValueV::List(es) => min <= es.len() <= max,
            _ => false,
        },
        Rule::NonEmpty => match v {
            ValueV::Text(s) => s.len() > 0,
            ValueV::List(es) => es.len() > 0,
            _ => false,
        },
        Rule::Even => v matches ValueV::Int(i) && i % 2 == 0,
        Rule::Present => !(v is Null),
    }
}

/// Runs one rule against a value.
pub fn check_rule(rule: &Rule, v: &Value) -> (r: bool)
    ensures
        r == rule_holds(*rule, v@),
{
    match rule {
        Rule::IntRange { min, max } => match v {
            Value::Int(i) => *min <= *i && *i <= *max,
            _ => false,
        },
        Rule::LenRange { min, max } => match v {
            Value::Text(s) => {
                let len = s.as_str().as_bytes().len();
                *min <= len && len <= *max
            },
            Value::List(es) => {
                proof {
                    lemma_value_models(es@);
                }
                *min <= es.len() && es.len() <= *max
            },
            _ => false,
        },
        Rule::NonEmpty => match v {
            Value::Text(s) => s.as_str().unicode_len() > 0,
            Value::List(es) => {
                proof {
                    lemma_value_models(es@);
                }
                es.len() > 0
            },
            _ => false,
        },
        Rule::Even => match v {
            Value::Int(i) => *i % 2 == 0,
            _ => false,
        },
        Rule::Present => !matches!(v, Value::Null),
    }
}

/// The plan for one field: the checks of both slots and the optionality
/// of the field and of its elements.
#[derive(Debug, Clone)]
pub struct FieldPlan {
    /// Checks run against the field's own (present) value; for an
    /// optional field they are skipped when the value is absent.
    pub field_rules: Vec<Rule>,
    /// Full-optional checks (the `Option<_>` escape hatch): they run
    /// whether or not the value is present, against the value as it
    /// stands, so they can see presence or absence themselves.
    pub full_rules: Vec<Rule>,
    /// Checks run against each element of a collection value.
    pub elem_rules: Vec<Rule>,
    /// An absent optional field has its unwrapped checks skipped.
    pub optional: bool,
    /// Absent elements of a collection are skipped, not errors.
    pub elem_optional: bool,
}

/// The mathematical model of a [`FieldPlan`].
pub struct FieldPlanV {
    pub field_rules: Seq<Rule>,
    pub full_rules: Seq<Rule>,
    pub elem_rules: Seq<Rule>,
    pub optional: bool,
    pub elem_optional: bool,
}

impl View for FieldPlan {
    type V = FieldPlanV;

    open spec fn view(&self) -> FieldPlanV {
        FieldPlanV {
            field_rules: self.field_rules@,
            full_rules: self.full_rules@,
            elem_rules: self.elem_rules@,
            optional: self.optional,
            elem_optional: self.elem_optional,
        }
    }
}

/// The models of a list of field plans, element by element.
pub open spec fn fp_views(fps: Seq<FieldPlan>) -> Seq<FieldPlanV> {
    Seq::new(fps.len(), |i: int| fps[i]@)
}

/// The plan for a record: its fields' plans, in declaration order.
#[derive(Debug, Clone)]
pub struct RecordPlan {
    pub fields: Vec<FieldPlan>,
}

/// The error value of one element of a collection: one slot per
/// element-slot check, filled when that check failed.
#[derive(Debug, Clone)]
pub struct ElemError {
    pub slots: Vec<Option<Rule>>,
}

/// The error value of one field: one slot per field-slot check (the
/// unwrapped checks first, the full-optional checks in their own list),
/// filled when that check failed, and the `(index, element error)` pairs
/// of the elements with at least one failing check, in index order.
#[derive(Debug, Clone)]
pub struct FieldError {
    pub slots: Vec<Option<Rule>>,
    pub full_slots: Vec<Option<Rule>>,
    pub element_errors: Vec<(usize, ElemError)>,
}

/// The aggregate error value of a record: one field error per field, in
/// declaration order.
#[derive(Debug, Clone)]
pub struct RecordError {
    pub fields: Vec<FieldError>,
}

/// The slots for one value: `None` where the rule holds, the failing rule
/// where it does not.
pub open spec fn sp_slots(rules: Seq<Rule>, v: ValueV) -> Seq<Option<Rule>> {
    Seq::new(rules.len(), |i: int| if rule_holds(rules[i], v) { None } else { Some(rules[i]) })
}

/// Whether at least one rule fails on the value.
pub open spec fn sp_any_fails(rules: Seq<Rule>, v: ValueV) -> bool {
    exists|i: int| 0 <= i < rules.len() && !rule_holds(rules[i], v)
}

/// Whether an element is skipped: the absent optional element.
pub open spec fn sp_elem_skipped(elem_optional: bool, v: ValueV) -> bool {
    elem_optional && v is Null
}

/// The `(index, element error)` pairs from index `i` on: one pair per
/// visited element with at least one failing check, in index order.
pub open spec fn sp_elem_errors(
    rules: Seq<Rule>,
    elems: Seq<ValueV>,
    elem_optional: bool,
    i: int,
) -> Seq<(int, Seq<Option<Rule>>)>
    decreases elems.len() - i,
{
    if !(0 <= i < elems.len()) {
        Seq::empty()
    } else if sp_elem_skipped(elem_optional, elems[i]) || !sp_any_fails(rules, elems[i]) {
        sp_elem_errors(rules, elems, elem_optional, i + 1)
    } else {
        seq![(i, sp_slots(rules, elems[i]))] + sp_elem_errors(rules, elems, elem_optional, i + 1)
    }
}

/// The model of one field's error value.
pub struct FieldErrorV {
    pub slots: Seq<Option<Rule>>,
    pub full_slots: Seq<Option<Rule>>,
    pub element_errors: Seq<(int, Seq<Option<Rule>>)>,
}

impl View for ElemError {
    type V = Seq<Option<Rule>>;

    open spec fn view(&self) -> Seq<Option<Rule>> {
        self.slots@
    }
}

impl View for FieldError {
    type V = FieldErrorV;

    open spec fn view(&self) -> FieldErrorV {
        FieldErrorV {
            slots: self.slots@,
            full_slots: self.full_slots@,
            element_errors: Seq::new(
                self.element_errors.len() as nat,
                |i: int| (self.element_errors[i].0 as int, self.element_errors[i].1@),
            ),
        }
    }
}

impl View for RecordError {
    type V = Seq<FieldErrorV>;

    open spec fn view(&self) -> Seq<FieldErrorV> {
        Seq::new(self.fields.len() as nat, |i: int| self.fields[i]@)
    }
}

/// The error a field's checks produce on a value. An absent optional
/// field yields no failure from its unwrapped checks, which do not run;
/// a present value has every unwrapped check run. The full-optional
/// checks always run, against the value as it stands — absent or not —
/// so a presence check can fail on the absent value. A collection value
/// has every element-slot check run on every (present) element.
pub open spec fn sp_field_error(fp: FieldPlanV, v: ValueV) -> FieldErrorV {
    if fp.optional && v is Null {
        FieldErrorV {
            slots: Seq::new(fp.field_rules.len(), |i: int| None),
            full_slots: sp_slots(fp.full_rules, v),
            element_errors: Seq::empty(),
        }
    } else {
        FieldErrorV {
            slots: sp_slots(fp.field_rules, v),
            full_slots: sp_slots(fp.full_rules, v),
            element_errors: if fp.elem_rules.len() > 0 && v matches ValueV::List(es) {
                sp_elem_errors(fp.elem_rules, v->List_0, fp.elem_optional, 0)
            } else {
                Seq::empty()
            },
        }
    }
}

/// Whether a field error is empty: no filled slot in either slot list,
/// no element error.
pub open spec fn sp_field_error_empty(e: FieldErrorV) -> bool {
    &&& forall|i: int| 0 <= i < e.slots.len() ==> e.slots[i] is None
    &&& forall|i: int| 0 <= i < e.full_slots.len() ==> e.full_slots[i] is None
    &&& e.element_errors.len() == 0
}

/// The record error: one field error per field, in declaration order.
pub open spec fn sp_record_errors(fields: Seq<FieldPlanV>, vals: Seq<ValueV>) -> Seq<FieldErrorV> {
    Seq::new(fields.len(), |i: int| sp_field_error(fields[i], vals[i]))
}

/// Whether every field error of the record is empty.
pub open spec fn sp_record_ok(fields: Seq<FieldPlanV>, vals: Seq<ValueV>) -> bool {
    forall|i: int| 0 <= i < fields.len() ==> sp_field_error_empty(
        #[trigger] sp_record_errors(fields, vals)[i],
    )
}

impl ElemError {
    /// True when no element-slot check failed.
    pub fn is_empty(&self) -> (r: bool)
        ensures
            r == (forall|i: int| 0 <= i < self@.len() ==> self@[i] is None),
    {
        let mut i: usize = 0;
        let mut all_none = true;
        while i < self.slots.len()
            invariant
                0 <= i <= self.slots.len(),
                all_none == (forall|k: int| 0 <= k < i ==> self.slots[k] is None),
            decreases self.slots.len() - i,
        {
            if self.slots[i].is_some() {
                all_none = false;
            }
            i = i + 1;
        }
        all_none
    }
}

impl FieldError {
    /// True when no check of this field failed.
    pub fn is_empty(&self) -> (r: bool)
        ensures
            r == sp_field_error_empty(self@),
    {
        let mut i: usize = 0;
        let mut all_none = true;
        while i < self.slots.len()
            invariant
                0 <= i <= self.slots.len(),
                all_none == (forall|k: int| 0 <= k < i ==> self.slots[k] is None),
            decreases self.slots.len() - i,
        {
            if self.slots[i].is_some() {
                all_none = false;
            }
            i = i + 1;
        }
        let mut j: usize = 0;
        let mut full_none = true;
        while j < self.full_slots.len()
            invariant
                0 <= j <= self.full_slots.len(),
                full_none == (forall|k: int| 0 <= k < j ==> self.full_slots[k] is None),
            decreases self.full_slots.len() - j,
        {
            if self.full_slots[j].is_some() {
                full_none = false;
            }
            j = j + 1;
        }
        all_none && full_none && self.element_errors.len() == 0
    }

    /// True when some check of this field failed.
    pub fn has_errors(&self) -> (r: bool)
        ensures
            r == !sp_field_error_empty(self@),
    {
        !self.is_empty()
    }
}

impl RecordError {
    /// The error of the field at `i`.
    pub fn field(&self, i: usize) -> (r: &FieldError)
        requires
            i < self@.len(),
        ensures
            r@ == self@[i as int],
    {
        &self.fields[i]
    }

    /// How many fields the record error covers.
    pub fn len(&self) -> (r: usize)
        ensures
            r == self@.len(),
    {
        self.fields.len()
    }
}

impl ValidationError for RecordError {
    /// True when no check of any field failed: the canonical success test.
    fn is_empty(&self) -> (r: bool)
        ensures
            r == (forall|i: int| 0 <= i < self@.len() ==> sp_field_error_empty(self@[i])),
    {
        let mut i: usize = 0;
        let mut all_empty = true;
        while i < self.fields.len()
            invariant
                0 <= i <= self.fields.len(),
                all_empty == (forall|k: int|
                    0 <= k < i ==> sp_field_error_empty(self.fields[k]@)),
            decreases self.fields.len() - i,
        {
            if self.fields[i].has_errors() {
                all_empty = false;
            }
            i = i + 1;
        }
        proof {
            if all_empty {
                assert forall|k: int| 0 <= k < self@.len() implies sp_field_error_empty(
                    self@[k],
                ) by {
                    assert(self@[k] == self.fields[k]@);
                }
            } else {
                let k = choose|k: int|
                    0 <= k < self.fields.len() && !sp_field_error_empty(self.fields[k]@);
                assert(self@[k] == self.fields[k]@);
                assert(!sp_field_error_empty(self@[k]));
            }
        }
        all_empty
    }
}

/// Runs the field-slot checks of one field plan against one value and
/// the element-slot checks against each element, collecting failures.
fn validate_field(fp: &FieldPlan, v: &Value) -> (r: FieldError)
    ensures
        r@ == sp_field_error(fp@, v@),
{
    let absent = fp.optional && matches!(v, Value::Null);
    // the full-optional checks run on the value as it stands
    let mut full_slots: Vec<Option<Rule>> = Vec::new();
    let mut f: usize = 0;
    while f < fp.full_rules.len()
        invariant
            0 <= f <= fp.full_rules.len(),
            full_slots.len() == f,
            forall|k: int|
                0 <= k < f ==> full_slots[k] == (if rule_holds(fp.full_rules@[k], v@) {
                    None
                } else {
                    Some(fp.full_rules@[k])
                }),
        decreases fp.full_rules.len() - f,
    {
        if check_rule(&fp.full_rules[f], v) {
            full_slots.push(None);
        } else {
            full_slots.push(Some(fp.full_rules[f]));
        }
        f = f + 1;
    }
    let mut slots: Vec<Option<Rule>> = Vec::new();
    let mut i: usize = 0;
    while i < fp.field_rules.len()
        invariant
            0 <= i <= fp.field_rules.len(),
            slots.len() == i,
            absent ==> forall|k: int| 0 <= k < i ==> slots[k] is None,
            !absent ==> forall|k: int|
                0 <= k < i ==> slots[k] == (if rule_holds(fp.field_rules@[k], v@) {
                    None
                } else {
                    Some(fp.field_rules@[k])
                }),
            absent == (fp.optional && v@ is Null),
        decreases fp.field_rules.len() - i,
    {
        if absent {
            slots.push(None);
        } else if check_rule(&fp.field_rules[i], v) {
            slots.push(None);
        } else {
            slots.push(Some(fp.field_rules[i]));
        }
        i = i + 1;
    }
    let mut element_errors: Vec<(usize, ElemError)> = Vec::new();
    if !absent && fp.elem_rules.len() > 0 {
        if let Value::List(es) = v {
            proof {
                lemma_value_models(es@);
            }
            let mut j: usize = 0;
            while j < es.len()
                invariant
                    0 <= j <= es.len(),
                    Value::models(es@).len() == es@.len(),
                    forall|k: int| 0 <= k < es.len() ==> Value::models(es@)[k] == es@[k]@,
                    sp_elem_errors(fp.elem_rules@, Value::models(es@), fp.elem_optional, 0)
                        =~= Seq::new(
                        element_errors.len() as nat,
                        |m: int| (element_errors[m].0 as int, element_errors[m].1@),
                    ) + sp_elem_errors(
                        fp.elem_rules@,
                        Value::models(es@),
                        fp.elem_optional,
                        j as int,
                    ),
                decreases es.len() - j,
            {
                let skipped = fp.elem_optional && matches!(&es[j], Value::Null);
                if !skipped {
                    let mut eslots: Vec<Option<Rule>> = Vec::new();
                    let mut any_fail = false;
                    let mut k: usize = 0;
                    while k < fp.elem_rules.len()
                        invariant
                            0 <= k <= fp.elem_rules.len(),
                            0 <= (j as int) < es@.len(),
                            eslots.len() == k,
                            forall|m: int|
                                0 <= m < k ==> eslots[m] == (if rule_holds(
                                    fp.elem_rules@[m],
                                    es@[j as int]@,
                                ) {
                                    None
                                } else {
                                    Some(fp.elem_rules@[m])
                                }),
                            any_fail == exists|m: int|
                                0 <= m < k && !rule_holds(fp.elem_rules@[m], es@[j as int]@),
                        decreases fp.elem_rules.len() - k,
                    {
                        if check_rule(&fp.elem_rules[k], &es[j]) {
                            eslots.push(None);
                        } else {
                            eslots.push(Some(fp.elem_rules[k]));
                            any_fail = true;
                        }
                        k = k + 1;
                    }
                    if any_fail {
                        let ghost before = Seq::new(
                            element_errors.len() as nat,
                            |m: int| (element_errors[m].0 as int, element_errors[m].1@),
                        );
                        element_errors.push((j, ElemError { slots: eslots }));
                        proof {
                            assert(eslots@ =~= sp_slots(fp.elem_rules@, es@[j as int]@));
                            assert(Seq::new(
                                element_errors.len() as nat,
                                |m: int| (element_errors[m].0 as int, element_errors[m].1@),
                            ) =~= before + seq![
                                (j as int, sp_slots(fp.elem_rules@, es@[j as int]@)),
                            ]);
                        }
                    }
                }
                j = j + 1;
            }
        }
    }
    let r = FieldError { slots, full_slots, element_errors };
    proof {
        assert(r@.full_slots =~= sp_slots(fp@.full_rules, v@));
        if absent {
            assert(r@.slots =~= Seq::new(fp@.field_rules.len(), |i: int| None::<Rule>));
            assert(r@.element_errors =~= Seq::<(int, Seq<Option<Rule>>)>::empty());
        } else {
            assert(r@.slots =~= sp_slots(fp@.field_rules, v@));
            if fp.elem_rules.len() > 0 && v@ matches ValueV::List(_) {
            } else {
                assert(r@.element_errors =~= Seq::<(int, Seq<Option<Rule>>)>::empty());
            }
        }
    }
    r
}

/// Validates a record value against a record plan, field by field in
/// declaration order. Every field and every check is visited — nothing
/// short-circuits — and the result is `Ok(())` exactly when no check
/// failed; otherwise the complete violation set is returned.
pub fn validate_record(plan: &RecordPlan, value: &Vec<Value>) -> (r: Result<(), RecordError>)
    requires
        plan.fields.len() == value.len(),
    ensures
        r is Ok <==> sp_record_ok(fp_views(plan.fields@), Value::models(value@)),
        r matches Err(e) ==> e@ == sp_record_errors(
            fp_views(plan.fields@),
            Value::models(value@),
        ),
{
    proof {
        lemma_value_models(value@);
    }
    let ghost fieldsv = fp_views(plan.fields@);
    let ghost valsv = Value::models(value@);
    let mut fields: Vec<FieldError> = Vec::new();
    let mut has_error = false;
    let mut i: usize = 0;
    while i < plan.fields.len()
        invariant
            0 <= i <= plan.fields.len(),
            plan.fields.len() == value.len(),
            fieldsv == fp_views(plan.fields@),
            valsv == Value::models(value@),
            valsv.len() == value@.len(),
            forall|k: int| 0 <= k < value.len() ==> valsv[k] == value@[k]@,
            fields.len() == i,
            forall|k: int| 0 <= k < i ==> fields[k]@ == sp_field_error(fieldsv[k], valsv[k]),
            has_error == exists|k: int|
                0 <= k < i && !sp_field_error_empty(sp_field_error(fieldsv[k], valsv[k])),
        decreases plan.fields.len() - i,
    {
        proof {
            assert(fieldsv[i as int] == plan.fields[i as int]@);
        }
        let fe = validate_field(&plan.fields[i], &value[i]);
        if fe.has_errors() {
            has_error = true;
        }
        fields.push(fe);
        i = i + 1;
    }
    if has_error {
        let e = RecordError { fields };
        proof {
            assert(e@ =~= sp_record_errors(fieldsv, valsv));
            let k = choose|k: int|
                0 <= k < plan.fields.len() && !sp_field_error_empty(
                    sp_field_error(fieldsv[k], valsv[k]),
                );
            assert(!sp_field_error_empty(sp_record_errors(fieldsv, valsv)[k]));
        }
        Err(e)
    } else {
        proof {
            assert forall|k: int| 0 <= k < fieldsv.len() implies sp_field_error_empty(
                sp_record_errors(fieldsv, valsv)[k],
            ) by {
                assert(!(exists|m: int|
                    0 <= m < plan.fields.len() && !sp_field_error_empty(
                        sp_field_error(fieldsv[m], valsv[m]),
                    )));
            }
        }
        Ok(())
    }
}

/// Optional-field law. For an optional field, the absent value yields
/// zero failures from the field's checks — the empty field error —
/// whatever checks are configured; a present value has every configured
/// check invoked, its slot filled exactly when the check fails. The one
/// exception the annotation grammar provides for is the full-optional
/// escape hatch: those checks see presence or absence themselves, so
/// they run — and may fail — on the absent value too.
pub proof fn lemma_optional_field(fp: FieldPlanV, v: ValueV)
    requires
        fp.optional,
    ensures
        v is Null && fp.full_rules.len() == 0 ==> sp_field_error_empty(sp_field_error(fp, v)),
        v is Null ==> (forall|i: int|
            0 <= i < fp.field_rules.len() ==> sp_field_error(fp, v).slots[i] is None)
            && sp_field_error(fp, v).element_errors.len() == 0,
        !(v is Null) ==> sp_field_error(fp, v).slots.len() == fp.field_rules.len(),
        !(v is Null) ==> forall|i: int|
            0 <= i < fp.field_rules.len() ==> (sp_field_error(fp, v).slots[i] is None
                <==> rule_holds(#[trigger] fp.field_rules[i], v)),
        sp_field_error(fp, v).full_slots.len() == fp.full_rules.len(),
        forall|i: int|
            0 <= i < fp.full_rules.len() ==> (sp_field_error(fp, v).full_slots[i] is None
                <==> rule_holds(#[trigger] fp.full_rules[i], v)),
{
}

/// Every entry of the element-error list from `i` on: its index lies in
/// `i ..` and carries exactly the failing checks of that element; the
/// indices come in strictly increasing order.
proof fn lemma_elem_errors_exact(rules: Seq<Rule>, elems: Seq<ValueV>, opt: bool, i: int)
    requires
        0 <= i,
    ensures
        forall|idx: int, sl: Seq<Option<Rule>>|
            #[trigger] sp_elem_errors(rules, elems, opt, i).contains((idx, sl)) <==> (i <= idx
                < elems.len() && !sp_elem_skipped(opt, elems[idx]) && sp_any_fails(
                rules,
                elems[idx],
            ) && sl == sp_slots(rules, elems[idx])),
        forall|m: int, m2: int|
            0 <= m < m2 < sp_elem_errors(rules, elems, opt, i).len() ==> #[trigger] sp_elem_errors(
                rules,
                elems,
                opt,
                i,
            )[m].0 < #[trigger] sp_elem_errors(rules, elems, opt, i)[m2].0,
        forall|m: int|
            0 <= m < sp_elem_errors(rules, elems, opt, i).len() ==> i <= #[trigger] sp_elem_errors(
                rules,
                elems,
                opt,
                i,
            )[m].0,
    decreases elems.len() - i,
{
    if !(i < elems.len()) {
        assert forall|idx: int, sl: Seq<Option<Rule>>|
            #[trigger] sp_elem_errors(rules, elems, opt, i).contains((idx, sl)) implies false by {
        }
    } else {
        lemma_elem_errors_exact(rules, elems, opt, i + 1);
        let cur = sp_elem_errors(rules, elems, opt, i);
        let rest = sp_elem_errors(rules, elems, opt, i + 1);
        if sp_elem_skipped(opt, elems[i]) || !sp_any_fails(rules, elems[i]) {
            assert(cur == rest);
            assert forall|idx: int, sl: Seq<Option<Rule>>| #[trigger] cur.contains((idx, sl))
                implies (i <= idx < elems.len() && !sp_elem_skipped(opt, elems[idx])
                && sp_any_fails(rules, elems[idx]) && sl == sp_slots(rules, elems[idx])) by {
                assert(rest.contains((idx, sl)));
            }
            assert forall|idx: int, sl: Seq<Option<Rule>>|
                (i <= idx < elems.len() && !sp_elem_skipped(opt, elems[idx]) && sp_any_fails(
                    rules,
                    elems[idx],
                ) && sl == sp_slots(rules, elems[idx])) implies #[trigger] cur.contains(
                (idx, sl),
            ) by {
                assert(idx != i);
                assert(rest.contains((idx, sl)));
            }
        } else {
            let headp = (i, sp_slots(rules, elems[i]));
            assert(cur == seq![headp] + rest);
            assert(cur[0] == headp);
            assert forall|idx: int, sl: Seq<Option<Rule>>| #[trigger] cur.contains((idx, sl))
                implies (i <= idx < elems.len() && !sp_elem_skipped(opt, elems[idx])
                && sp_any_fails(rules, elems[idx]) && sl == sp_slots(rules, elems[idx])) by {
                let m = choose|m: int| 0 <= m < cur.len() && cur[m] == (idx, sl);
                if m == 0 {
                } else {
                    assert(cur[m] == rest[m - 1]);
                    assert(rest.contains((idx, sl)));
                }
            }
            assert forall|idx: int, sl: Seq<Option<Rule>>|
                (i <= idx < elems.len() && !sp_elem_skipped(opt, elems[idx]) && sp_any_fails(
                    rules,
                    elems[idx],
                ) && sl == sp_slots(rules, elems[idx])) implies #[trigger] cur.contains(
                (idx, sl),
            ) by {
                if idx == i {
                    assert(cur[0] == (idx, sl));
                } else {
                    assert(rest.contains((idx, sl)));
                    let m = choose|m: int| 0 <= m < rest.len() && rest[m] == (idx, sl);
                    assert(cur[m + 1] == (idx, sl));
                }
            }
            assert forall|m: int, m2: int| 0 <= m < m2 < cur.len() implies #[trigger] cur[m].0
                < #[trigger] cur[m2].0 by {
                if m == 0 {
                    assert(cur[m2] == rest[m2 - 1]);
                    assert(rest[m2 - 1].0 >= i + 1);
                } else {
                    assert(cur[m] == rest[m - 1]);
                    assert(cur[m2] == rest[m2 - 1]);
                }
            }
            assert forall|m: int| 0 <= m < cur.len() implies i <= #[trigger] cur[m].0 by {
                if m > 0 {
                    assert(cur[m] == rest[m - 1]);
                }
            }
        }
    }
}

/// Exhaustive-collection law. For a collection of N elements, all indices
/// `0 .. N-1` are visited: the element-error list holds an entry exactly
/// for the indices with at least one failing element check (absent
/// optional elements being skipped), each entry pairs its index with all
/// failing checks of that element, and the indices come in increasing
/// order.
pub proof fn lemma_exhaustive_collection(fp: FieldPlanV, es: Seq<ValueV>)
    requires
        fp.elem_rules.len() > 0,
    ensures
        forall|idx: int, sl: Seq<Option<Rule>>|
            #[trigger] sp_field_error(fp, ValueV::List(es)).element_errors.contains((idx, sl))
                <==> (0 <= idx < es.len() && !sp_elem_skipped(fp.elem_optional, es[idx])
                && sp_any_fails(fp.elem_rules, es[idx]) && sl == sp_slots(
                fp.elem_rules,
                es[idx],
            )),
        forall|m: int, m2: int|
            0 <= m < m2 < sp_field_error(fp, ValueV::List(es)).element_errors.len()
                ==> #[trigger] sp_field_error(fp, ValueV::List(es)).element_errors[m].0
                < #[trigger] sp_field_error(fp, ValueV::List(es)).element_errors[m2].0,
{
    lemma_elem_errors_exact(fp.elem_rules, es, fp.elem_optional, 0);
}

/// No-short-circuit law. When two or more fields fail, the aggregate
/// error is non-empty and every failing field's own error is non-empty in
/// it: later failures are collected beside earlier ones, never dropped.
pub proof fn lemma_no_short_circuit(fields: Seq<FieldPlanV>, vals: Seq<ValueV>, a: int, b: int)
    requires
        vals.len() == fields.len(),
        0 <= a < fields.len(),
        0 <= b < fields.len(),
        a != b,
        !sp_field_error_empty(sp_field_error(fields[a], vals[a])),
        !sp_field_error_empty(sp_field_error(fields[b], vals[b])),
    ensures
        !sp_record_ok(fields, vals),
        !sp_field_error_empty(sp_record_errors(fields, vals)[a]),
        !sp_field_error_empty(sp_record_errors(fields, vals)[b]),
{
    assert(sp_record_errors(fields, vals)[a] == sp_field_error(fields[a], vals[a]));
    assert(sp_record_errors(fields, vals)[b] == sp_field_error(fields[b], vals[b]));
}

} // verus!
