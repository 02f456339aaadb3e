//! The annotation aggregator: a field may carry several annotation
//! occurrences; each is parsed independently and their validator lists are
//! unioned, tracking separate seen-name sets for the field-level and the
//! element-level slot. The same simple name twice in one slot — within one
//! occurrence or across several — is refused as a duplicate, never
//! silently deduplicated; the same name once per slot is fine, the slots
//! are independent. `skip` on any occurrence excludes the field entirely;
//! `nested` and `newtype` delegate to the field type's own `validate` and
//! imply empty validator lists.

use vstd::prelude::*;

use crate::ast::{
    FieldInfo, FieldInfoV, FieldParseError, KorumaAttr, ParseFieldResult, TypeExpr, TypeExprV,
    ValidatorAttr, ValidatorAttrV,
};
use crate::parser::{attr_views, parse_koruma_attr, sp_parse_koruma, SyntaxErrorV};

verus! {

/// A whole annotation occurrence, with the ASCII requirement folded in.
pub open spec fn sp_parse_koruma_total(s: Seq<char>) -> Result<
    crate::ast::KorumaAttrV,
    SyntaxErrorV,
> {
    if vstd::utf8::is_ascii_chars(s) {
        sp_parse_koruma(s)
    } else {
        Err(SyntaxErrorV::NonAscii)
    }
}

/// Whether some invocation in `acc` already uses the simple name `n`.
pub open spec fn sp_has_name(acc: Seq<ValidatorAttrV>, n: Seq<char>) -> bool {
    exists|k: int| 0 <= k < acc.len() && acc[k].spec_name() == n
}

/// Extends `acc` with the invocations of `vs` in order, refusing the first
/// whose simple name is already taken.
pub open spec fn sp_extend(acc: Seq<ValidatorAttrV>, vs: Seq<ValidatorAttrV>) -> Result<
    Seq<ValidatorAttrV>,
    Seq<char>,
>
    decreases vs.len(),
{
    if vs.len() == 0 {
        Ok(acc)
    } else if sp_has_name(acc, vs[0].spec_name()) {
        Err(vs[0].spec_name())
    } else {
        sp_extend(acc.push(vs[0]), vs.skip(1))
    }
}

/// The aggregation state while occurrences are read.
pub struct AggStateV {
    pub fv: Seq<ValidatorAttrV>,
    pub ev: Seq<ValidatorAttrV>,
    pub is_skip: bool,
    pub is_nested: bool,
    pub is_newtype: bool,
}

/// The model of a field-aggregation outcome.
pub enum ParseFieldResultV {
    Valid(FieldInfoV),
    Skip,
    SyntaxError(SyntaxErrorV),
    Duplicate { name: Seq<char>, field: Seq<char> },
}

/// Reads the occurrences from index `i` on, updating the state.
pub open spec fn sp_agg(
    field: Seq<char>,
    occs: Seq<Seq<char>>,
    i: int,
    st: AggStateV,
) -> Result<AggStateV, ParseFieldResultV>
    decreases occs.len() - i,
{
    if !(0 <= i < occs.len()) {
        Ok(st)
    } else {
        match sp_parse_koruma_total(occs[i]) {
            Err(err) => Err(ParseFieldResultV::SyntaxError(err)),
            Ok(attr) => {
                if attr.is_skip {
                    sp_agg(field, occs, i + 1, AggStateV { is_skip: true, ..st })
                } else if attr.is_nested {
                    sp_agg(field, occs, i + 1, AggStateV { is_nested: true, ..st })
                } else if attr.is_newtype {
                    sp_agg(field, occs, i + 1, AggStateV { is_newtype: true, ..st })
                } else {
                    match sp_extend(st.fv, attr.field_validators) {
                        Err(n) => Err(ParseFieldResultV::Duplicate { name: n, field }),
                        Ok(fv2) => match sp_extend(st.ev, attr.element_validators) {
                            Err(n) => Err(ParseFieldResultV::Duplicate { name: n, field }),
                            Ok(ev2) => sp_agg(
                                field,
                                occs,
                                i + 1,
                                AggStateV { fv: fv2, ev: ev2, ..st },
                            ),
                        },
                    }
                }
            },
        }
    }
}

/// The outcome of reading one field's annotation occurrences: `skip` wins
/// over everything; `nested` and `newtype` mark delegation and imply
/// empty validator lists — the field's declared type supplies its own
/// `validate` instead, so validators written beside the modifier are
/// discarded (after duplicate checking); a field with no validators and
/// no modifier is unannotated and skipped.
pub open spec fn sp_parse_field(field: Seq<char>, ty: TypeExprV, occs: Seq<Seq<char>>)
    -> ParseFieldResultV {
    let st0 = AggStateV {
        fv: Seq::empty(),
        ev: Seq::empty(),
        is_skip: false,
        is_nested: false,
        is_newtype: false,
    };
    match sp_agg(field, occs, 0, st0) {
        Err(r) => r,
        Ok(st) => {
            if st.is_skip {
                ParseFieldResultV::Skip
            } else if st.is_nested {
                ParseFieldResultV::Valid(
                    FieldInfoV {
                        name: field,
                        ty,
                        field_validators: Seq::empty(),
                        element_validators: Seq::empty(),
                        is_nested: true,
                        is_newtype: false,
                    },
                )
            } else if st.is_newtype {
                ParseFieldResultV::Valid(
                    FieldInfoV {
                        name: field,
                        ty,
                        field_validators: Seq::empty(),
                        element_validators: Seq::empty(),
                        is_nested: false,
                        is_newtype: true,
                    },
                )
            } else if st.fv.len() == 0 && st.ev.len() == 0 {
                ParseFieldResultV::Skip
            } else {
                ParseFieldResultV::Valid(
                    FieldInfoV {
                        name: field,
                        ty,
                        field_validators: st.fv,
                        element_validators: st.ev,
                        is_nested: false,
                        is_newtype: false,
                    },
                )
            }
        },
    }
}

impl View for FieldParseError {
    type V = ParseFieldResultV;

    open spec fn view(&self) -> ParseFieldResultV {
        match self {
            FieldParseError::Syntax(e) => ParseFieldResultV::SyntaxError(e@),
            FieldParseError::DuplicateValidator { name, field } => ParseFieldResultV::Duplicate {
                name: name@,
                field: field@,
            },
        }
    }
}

impl View for ParseFieldResult {
    type V = ParseFieldResultV;

    open spec fn view(&self) -> ParseFieldResultV {
        match self {
            ParseFieldResult::Valid(info) => ParseFieldResultV::Valid(info@),
            ParseFieldResult::Skip => ParseFieldResultV::Skip,
            ParseFieldResult::Error(e) => e@,
        }
    }
}

/// Appends the invocations of `vs` to `all`, in order, refusing the first
/// one whose simple name is already used in `all`.
fn extend_validators(all: &mut Vec<ValidatorAttr>, vs: Vec<ValidatorAttr>) -> (r: Result<
    (),
    String,
>)
    requires
        forall|k: int| 0 <= k < old(all).len() ==> old(all)[k]@.wf(),
        forall|k: int| 0 <= k < vs.len() ==> vs[k]@.wf(),
    ensures
        forall|k: int| 0 <= k < final(all).len() ==> final(all)[k]@.wf(),
        match r {
            Ok(()) => sp_extend(attr_views(old(all)@), attr_views(vs@)) == Ok::<_, Seq<char>>(
                attr_views(final(all)@),
            ),
            Err(n) => sp_extend(attr_views(old(all)@), attr_views(vs@)) == Err::<
                Seq<ValidatorAttrV>,
                _,
            >(n@),
        },
    decreases vs.len(),
{
    let ghost all0 = attr_views(all@);
    let ghost vs0 = attr_views(vs@);
    if vs.len() == 0 {
        proof {
            assert(vs0.len() == 0);
        }
        return Ok(());
    }
    let mut rest = vs;
    let v = rest.remove(0);
    let ghost vv = v@;
    proof {
        assert(vs0[0] == vv);
        assert(attr_views(rest@) =~= vs0.skip(1));
    }
    let name = v.name().clone();
    let mut seen = false;
    let mut k: usize = 0;
    while k < all.len()
        invariant
            0 <= k <= all.len(),
            forall|m: int| 0 <= m < all.len() ==> all[m]@.wf(),
            name@ == vv.spec_name(),
            seen <==> exists|m: int| 0 <= m < k && all[m]@.spec_name() == name@,
        decreases all.len() - k,
    {
        if crate::resolve::str_eq_lit(&name, all[k].name().as_str()) {
            seen = true;
            proof {
                assert(all[k as int]@.spec_name() == name@);
            }
        }
        k = k + 1;
    }
    proof {
        assert(sp_has_name(all0, vv.spec_name()) <==> seen) by {
            if seen {
                let m = choose|m: int| 0 <= m < all.len() && all[m]@.spec_name() == name@;
                assert(all0[m] == all[m]@);
            } else {
                assert forall|m: int|
                    0 <= m < all0.len() implies all0[m].spec_name() != vv.spec_name() by {
                    assert(all0[m] == all[m]@);
                }
            }
        }
    }
    if seen {
        Err(name)
    } else {
        let ghost all_before = attr_views(all@);
        all.push(v);
        proof {
            assert(attr_views(all@) =~= all0.push(vv));
        }
        let r = extend_validators(all, rest);
        r
    }
}

/// Reads one field's annotation occurrences and aggregates them.
///
/// Occurrences are parsed independently and their validator lists unioned
/// in order; the same simple name twice in one slot fails as a duplicate,
/// while the field slot and the element slot keep separate name sets.
/// `skip` anywhere excludes the field; `nested` / `newtype` mark
/// delegation to the field type's own `validate`; a field with no
/// validators and no modifier is skipped as unannotated.
#[verifier::rlimit(50)]
pub fn parse_field(name: &String, ty: &TypeExpr, occurrences: &Vec<String>) -> (r:
    ParseFieldResult)
    ensures
        r@ == sp_parse_field(name@, ty@, occurrences.deep_view()),
        r matches ParseFieldResult::Valid(info) ==> {
            &&& forall|k: int|
                0 <= k < info@.field_validators.len() ==> info@.field_validators[k].wf()
            &&& forall|k: int|
                0 <= k < info@.element_validators.len() ==> info@.element_validators[k].wf()
        },
{
    let ghost occsv = occurrences.deep_view();
    let mut all_fv: Vec<ValidatorAttr> = Vec::new();
    let mut all_ev: Vec<ValidatorAttr> = Vec::new();
    let mut is_skip = false;
    let mut is_nested = false;
    let mut is_newtype = false;
    let ghost st0 = AggStateV {
        fv: Seq::empty(),
        ev: Seq::empty(),
        is_skip: false,
        is_nested: false,
        is_newtype: false,
    };
    proof {
        assert(attr_views(all_fv@) =~= Seq::<ValidatorAttrV>::empty());
        assert(attr_views(all_ev@) =~= Seq::<ValidatorAttrV>::empty());
    }
    let mut i: usize = 0;
    let mut failed: Option<FieldParseError> = None;
    while i < occurrences.len() && failed.is_none()
        invariant
            0 <= i <= occurrences.len(),
            occsv == occurrences.deep_view(),
            forall|k: int| 0 <= k < all_fv.len() ==> all_fv[k]@.wf(),
            forall|k: int| 0 <= k < all_ev.len() ==> all_ev[k]@.wf(),
            failed is None ==> sp_agg(name@, occsv, 0, st0) == sp_agg(
                name@,
                occsv,
                i as int,
                AggStateV {
                    fv: attr_views(all_fv@),
                    ev: attr_views(all_ev@),
                    is_skip: is_skip,
                    is_nested: is_nested,
                    is_newtype: is_newtype,
                },
            ),
            failed matches Some(e) ==> sp_agg(name@, occsv, 0, st0) == Err::<AggStateV, _>(e@),
        decreases occurrences.len() - i + (if failed is None { 1int } else { 0int }),
    {
        proof {
            assert(occsv[i as int] == occurrences[i as int]@);
        }
        match parse_koruma_attr(occurrences[i].as_str()) {
            Err(err) => {
                failed = Some(FieldParseError::Syntax(err));
            },
            Ok(attr) => {
                let ghost attrv = attr@;
                let KorumaAttr {
                    field_validators,
                    element_validators,
                    is_skip: a_skip,
                    is_nested: a_nested,
                    is_newtype: a_newtype,
                } = attr;
                proof {
                    assert(attr_views(field_validators@) =~= attrv.field_validators);
                    assert(attr_views(element_validators@) =~= attrv.element_validators);
                    assert forall|k: int|
                        0 <= k < field_validators.len() implies field_validators[k]@.wf() by {
                        assert(attrv.field_validators[k] == attr_views(field_validators@)[k]);
                    }
                    assert forall|k: int|
                        0 <= k < element_validators.len() implies element_validators[k]@.wf() by {
                        assert(attrv.element_validators[k] == attr_views(element_validators@)[k]);
                    }
                }
                if a_skip {
                    is_skip = true;
                } else if a_nested {
                    is_nested = true;
                } else if a_newtype {
                    is_newtype = true;
                } else {
                    match extend_validators(&mut all_fv, field_validators) {
                        Err(n) => {
                            failed = Some(
                                FieldParseError::DuplicateValidator {
                                    name: n,
                                    field: name.clone(),
                                },
                            );
                        },
                        Ok(()) => {
                            match extend_validators(&mut all_ev, element_validators) {
                                Err(n) => {
                                    failed = Some(
                                        FieldParseError::DuplicateValidator {
                                            name: n,
                                            field: name.clone(),
                                        },
                                    );
                                },
                                Ok(()) => {},
                            }
                        },
                    }
                }
                i = i + 1;
            },
        }
    }
    if let Some(e) = failed {
        return ParseFieldResult::Error(e);
    }
    if is_skip {
        return ParseFieldResult::Skip;
    }
    if is_nested || is_newtype {
        // the declared type supplies its own `validate`: the lists stay empty
        let info = FieldInfo {
            name: name.clone(),
            ty: ty.clone(),
            field_validators: Vec::new(),
            element_validators: Vec::new(),
            is_nested: is_nested,
            is_newtype: !is_nested && is_newtype,
        };
        proof {
            assert(info@.field_validators =~= Seq::<ValidatorAttrV>::empty());
            assert(info@.element_validators =~= Seq::<ValidatorAttrV>::empty());
        }
        return ParseFieldResult::Valid(info);
    }
    if all_fv.len() == 0 && all_ev.len() == 0 {
        return ParseFieldResult::Skip;
    }
    let info = FieldInfo {
        name: name.clone(),
        ty: ty.clone(),
        field_validators: all_fv,
        element_validators: all_ev,
        is_nested: false,
        is_newtype: false,
    };
    proof {
        assert(info@.field_validators =~= attr_views(info.field_validators@));
        assert(info@.element_validators =~= attr_views(info.element_validators@));
    }
    ParseFieldResult::Valid(info)
}

/// The simple names of a list of invocations, in order.
pub open spec fn sp_names(vs: Seq<ValidatorAttrV>) -> Seq<Seq<char>> {
    Seq::new(vs.len(), |i: int| vs[i].spec_name())
}

/// Whether all names in a list are pairwise distinct.
pub open spec fn sp_distinct(ns: Seq<Seq<char>>) -> bool {
    forall|i: int, j: int| 0 <= i < j < ns.len() ==> ns[i] != ns[j]
}

/// Extending succeeds exactly when the combined names stay distinct, and
/// then simply concatenates the lists.
proof fn lemma_extend(acc: Seq<ValidatorAttrV>, vs: Seq<ValidatorAttrV>)
    requires
        sp_distinct(sp_names(acc)),
    ensures
        sp_extend(acc, vs) is Ok <==> sp_distinct(sp_names(acc) + sp_names(vs)),
        sp_extend(acc, vs) matches Ok(r) ==> r == acc + vs,
    decreases vs.len(),
{
    if vs.len() == 0 {
        assert(sp_names(acc) + sp_names(vs) =~= sp_names(acc));
        assert(acc + vs =~= acc);
    } else {
        let n0 = vs[0].spec_name();
        let all = sp_names(acc) + sp_names(vs);
        assert(all[acc.len() as int] == n0);
        if sp_has_name(acc, n0) {
            let k = choose|k: int| 0 <= k < acc.len() && acc[k].spec_name() == n0;
            assert(all[k] == n0);
            assert(!sp_distinct(all));
        } else {
            let acc2 = acc.push(vs[0]);
            assert(sp_names(acc2) =~= sp_names(acc) + seq![n0]);
            assert forall|i: int, j: int|
                0 <= i < j < sp_names(acc2).len() implies sp_names(acc2)[i] != sp_names(
                acc2,
            )[j] by {
                if j == acc.len() {
                    assert(sp_names(acc2)[i] == acc[i].spec_name());
                    assert(!(acc[i].spec_name() == n0));
                }
            }
            lemma_extend(acc2, vs.skip(1));
            assert(sp_names(acc2) + sp_names(vs.skip(1)) =~= all) by {
                assert forall|i: int| 0 <= i < all.len() implies (sp_names(acc2) + sp_names(
                    vs.skip(1),
                ))[i] == all[i] by {
                    if i > acc.len() {
                        assert(sp_names(vs.skip(1))[i - acc.len() - 1] == vs.skip(1)[i - acc.len()
                            - 1].spec_name());
                        assert(vs.skip(1)[i - acc.len() - 1] == vs[i - acc.len()]);
                    }
                }
            }
            if sp_extend(acc, vs) is Ok {
                assert(sp_extend(acc, vs)->Ok_0 == acc2 + vs.skip(1));
                assert(acc2 + vs.skip(1) =~= acc + vs);
            }
        }
    }
}

/// The field-slot names contributed by the occurrences from `i` on.
pub open spec fn sp_occ_field_names(occs: Seq<Seq<char>>, i: int) -> Seq<Seq<char>>
    decreases occs.len() - i,
{
    if !(0 <= i < occs.len()) {
        Seq::empty()
    } else {
        (match sp_parse_koruma_total(occs[i]) {
            Ok(a) => if !a.is_skip && !a.is_nested && !a.is_newtype {
                sp_names(a.field_validators)
            } else {
                Seq::empty()
            },
            Err(_) => Seq::empty(),
        }) + sp_occ_field_names(occs, i + 1)
    }
}

/// The element-slot names contributed by the occurrences from `i` on.
pub open spec fn sp_occ_elem_names(occs: Seq<Seq<char>>, i: int) -> Seq<Seq<char>>
    decreases occs.len() - i,
{
    if !(0 <= i < occs.len()) {
        Seq::empty()
    } else {
        (match sp_parse_koruma_total(occs[i]) {
            Ok(a) => if !a.is_skip && !a.is_nested && !a.is_newtype {
                sp_names(a.element_validators)
            } else {
                Seq::empty()
            },
            Err(_) => Seq::empty(),
        }) + sp_occ_elem_names(occs, i + 1)
    }
}

/// Aggregation from state `st` succeeds exactly when each slot's names,
/// the state's followed by the occurrences', stay pairwise distinct; and
/// any failure is a duplicate naming this field.
proof fn lemma_agg(field: Seq<char>, occs: Seq<Seq<char>>, i: int, st: AggStateV)
    requires
        sp_distinct(sp_names(st.fv)),
        sp_distinct(sp_names(st.ev)),
        forall|j: int| 0 <= j < occs.len() ==> #[trigger] sp_parse_koruma_total(occs[j]) is Ok,
        0 <= i,
    ensures
        sp_agg(field, occs, i, st) is Ok <==> sp_distinct(
            sp_names(st.fv) + sp_occ_field_names(occs, i),
        ) && sp_distinct(sp_names(st.ev) + sp_occ_elem_names(occs, i)),
        sp_agg(field, occs, i, st) matches Err(e) ==> e matches (
        ParseFieldResultV::Duplicate { field: f, .. }) && f == field,
    decreases occs.len() - i,
{
    if !(i < occs.len()) {
        assert(sp_names(st.fv) + sp_occ_field_names(occs, i) =~= sp_names(st.fv));
        assert(sp_names(st.ev) + sp_occ_elem_names(occs, i) =~= sp_names(st.ev));
    } else {
        let a = sp_parse_koruma_total(occs[i])->Ok_0;
        if a.is_skip || a.is_nested || a.is_newtype {
            let st2 = if a.is_skip {
                AggStateV { is_skip: true, ..st }
            } else if a.is_nested {
                AggStateV { is_nested: true, ..st }
            } else {
                AggStateV { is_newtype: true, ..st }
            };
            lemma_agg(field, occs, i + 1, st2);
            assert(sp_occ_field_names(occs, i) =~= sp_occ_field_names(occs, i + 1));
            assert(sp_occ_elem_names(occs, i) =~= sp_occ_elem_names(occs, i + 1));
        } else {
            lemma_extend(st.fv, a.field_validators);
            match sp_extend(st.fv, a.field_validators) {
                Err(_) => {
                    assert(!sp_distinct(sp_names(st.fv) + sp_names(a.field_validators)));
                    let whole = sp_names(st.fv) + sp_occ_field_names(occs, i);
                    let part = sp_names(st.fv) + sp_names(a.field_validators);
                    assert forall|k: int| 0 <= k < part.len() implies part[k] == whole[k] by {
                        if k >= st.fv.len() {
                            assert(sp_occ_field_names(occs, i)[k - st.fv.len()] == sp_names(
                                a.field_validators,
                            )[k - st.fv.len()]);
                        }
                    }
                    let (x, y) = choose|x: int, y: int|
                        0 <= x < y < part.len() && part[x] == part[y];
                    assert(whole[x] == whole[y]);
                    assert(!sp_distinct(whole));
                },
                Ok(fv2) => {
                    assert(fv2 == st.fv + a.field_validators);
                    lemma_extend(st.ev, a.element_validators);
                    match sp_extend(st.ev, a.element_validators) {
                        Err(_) => {
                            let whole = sp_names(st.ev) + sp_occ_elem_names(occs, i);
                            let part = sp_names(st.ev) + sp_names(a.element_validators);
                            assert forall|k: int|
                                0 <= k < part.len() implies part[k] == whole[k] by {
                                if k >= st.ev.len() {
                                    assert(sp_occ_elem_names(occs, i)[k - st.ev.len()]
                                        == sp_names(a.element_validators)[k - st.ev.len()]);
                                }
                            }
                            let (x, y) = choose|x: int, y: int|
                                0 <= x < y < part.len() && part[x] == part[y];
                            assert(whole[x] == whole[y]);
                        },
                        Ok(ev2) => {
                            assert(ev2 == st.ev + a.element_validators);
                            let st2 = AggStateV { fv: fv2, ev: ev2, ..st };
                            assert(sp_names(st2.fv) =~= sp_names(st.fv) + sp_names(
                                a.field_validators,
                            ));
                            assert(sp_names(st2.ev) =~= sp_names(st.ev) + sp_names(
                                a.element_validators,
                            ));
                            lemma_agg(field, occs, i + 1, st2);
                            assert(sp_names(st2.fv) + sp_occ_field_names(occs, i + 1)
                                =~= sp_names(st.fv) + sp_occ_field_names(occs, i));
                            assert(sp_names(st2.ev) + sp_occ_elem_names(occs, i + 1) =~= sp_names(
                                st.ev,
                            ) + sp_occ_elem_names(occs, i));
                        },
                    }
                },
            }
        }
    }
}

/// Duplicate law. Over occurrences that all parse, aggregation fails —
/// and then with a duplicate-validator error naming this field — exactly
/// when some simple name repeats within the field slot or within the
/// element slot; the two slots keep independent name sets, so the same
/// name once per slot is no duplicate.
pub proof fn lemma_duplicate_law(field: Seq<char>, ty: TypeExprV, occs: Seq<Seq<char>>)
    requires
        forall|j: int| 0 <= j < occs.len() ==> #[trigger] sp_parse_koruma_total(occs[j]) is Ok,
    ensures
        (sp_parse_field(field, ty, occs) matches (ParseFieldResultV::Duplicate { .. })) <==> !(
        sp_distinct(sp_occ_field_names(occs, 0)) && sp_distinct(sp_occ_elem_names(occs, 0))),
        sp_parse_field(field, ty, occs) matches (ParseFieldResultV::Duplicate { field: f, .. })
            ==> f == field,
{
    let st0 = AggStateV {
        fv: Seq::empty(),
        ev: Seq::empty(),
        is_skip: false,
        is_nested: false,
        is_newtype: false,
    };
    assert(sp_names(st0.fv) =~= Seq::<Seq<char>>::empty());
    assert(sp_names(st0.ev) =~= Seq::<Seq<char>>::empty());
    lemma_agg(field, occs, 0, st0);
    assert(sp_names(st0.fv) + sp_occ_field_names(occs, 0) =~= sp_occ_field_names(occs, 0));
    assert(sp_names(st0.ev) + sp_occ_elem_names(occs, 0) =~= sp_occ_elem_names(occs, 0));
}

} // verus!
