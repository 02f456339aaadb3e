//! The type-inference resolver: given a field's declared type and the type
//! parameter an invocation asked for, compute the concrete type a validator
//! is instantiated with. Element slots unwrap one collection level first;
//! optional fields are unwrapped one `Option` level unless the invocation
//! asked for the full optional type.

use vstd::prelude::*;

use crate::ast::{lemma_type_expr_models, TypeExpr, TypeExprV, ValidatorAttr, ValidatorAttrV};

verus! {

/// Compares a string against a literal.
pub fn str_eq_lit(name: &String, lit: &str) -> (r: bool)
    ensures
        r == (name@ == lit@),
{
    *name == lit.to_owned()
}

impl TypeExprV {
    /// Whether this type is `Option<..>` with at least one argument.
    pub open spec fn is_option(self) -> bool {
        match self {
            TypeExprV::Named { name, args, .. } => name == "Option"@ && args.len() > 0,
            _ => false,
        }
    }

    /// The inner type of `Option<T>`.
    pub open spec fn option_inner(self) -> Option<TypeExprV> {
        if self.is_option() {
            Some(self->Named_args[0])
        } else {
            None
        }
    }

    /// The element type of `Vec<T>`.
    pub open spec fn vec_inner(self) -> Option<TypeExprV> {
        match self {
            TypeExprV::Named { name, args, .. } => if name == "Vec"@ && args.len() > 0 {
                Some(args[0])
            } else {
                None
            },
            _ => None,
        }
    }

    /// The first generic argument, if any.
    pub open spec fn first_generic_arg(self) -> Option<TypeExprV> {
        match self {
            TypeExprV::Named { args, .. } => if args.len() > 0 {
                Some(args[0])
            } else {
                None
            },
            _ => None,
        }
    }

    /// Whether this type is exactly `Option<_>`: the one escape hatch that
    /// asks for the full optional type, unwrapped by nothing.
    pub open spec fn is_option_infer(self) -> bool {
        match self.option_inner() {
            Some(inner) => inner is Placeholder,
            None => false,
        }
    }

    /// Whether any `_` placeholder occurs in this type.
    pub open spec fn contains_infer(self) -> bool
        decreases self,
    {
        match self {
            TypeExprV::Placeholder => true,
            TypeExprV::Named { args, .. } => TypeExprV::any_contains_infer(args),
        }
    }

    /// Whether any `_` placeholder occurs in a list of types.
    pub open spec fn any_contains_infer(ts: Seq<TypeExprV>) -> bool
        decreases ts,
    {
        ts.len() > 0 && (ts[0].contains_infer() || TypeExprV::any_contains_infer(ts.skip(1)))
    }

    /// The type with every `_` placeholder leaf replaced by `infer`.
    pub open spec fn substitute(self, infer: TypeExprV) -> TypeExprV
        decreases self,
    {
        match self {
            TypeExprV::Placeholder => infer,
            TypeExprV::Named { qualifier, name, args } => TypeExprV::Named {
                qualifier,
                name,
                args: TypeExprV::substitute_list(args, infer),
            },
        }
    }

    /// Placeholder substitution over a list of types, element by element.
    pub open spec fn substitute_list(ts: Seq<TypeExprV>, infer: TypeExprV) -> Seq<TypeExprV>
        decreases ts,
    {
        if ts.len() == 0 {
            Seq::empty()
        } else {
            seq![ts[0].substitute(infer)] + TypeExprV::substitute_list(ts.skip(1), infer)
        }
    }

    /// The declared type unwrapped for validation: one `Vec` level first
    /// for element slots, then one `Option` level.
    pub open spec fn effective(self, validate_each: bool) -> TypeExprV {
        let after_vec = if validate_each {
            match self.vec_inner() {
                Some(t) => t,
                None => self,
            }
        } else {
            self
        };
        match after_vec.option_inner() {
            Some(t) => t,
            None => after_vec,
        }
    }
}

/// `any_contains_infer` holds exactly when some element contains `_`.
pub broadcast proof fn lemma_any_contains_infer(ts: Seq<TypeExprV>)
    ensures
        #[trigger] TypeExprV::any_contains_infer(ts) <==> exists|i: int|
            0 <= i < ts.len() && ts[i].contains_infer(),
    decreases ts.len(),
{
    if ts.len() > 0 {
        lemma_any_contains_infer(ts.skip(1));
        if ts[0].contains_infer() {
            assert(ts[0].contains_infer());
        } else if TypeExprV::any_contains_infer(ts.skip(1)) {
            let i = choose|i: int| 0 <= i < ts.skip(1).len() && ts.skip(1)[i].contains_infer();
            assert(ts[i + 1].contains_infer());
        } else {
            assert forall|i: int| 0 <= i < ts.len() implies !ts[i].contains_infer() by {
                if i > 0 {
                    assert(ts.skip(1)[i - 1] == ts[i]);
                }
            }
        }
    }
}

/// `substitute_list` maps the list element by element.
pub broadcast proof fn lemma_substitute_list(ts: Seq<TypeExprV>, infer: TypeExprV)
    ensures
        #[trigger] TypeExprV::substitute_list(ts, infer).len() == ts.len(),
        forall|i: int|
            0 <= i < ts.len() ==> TypeExprV::substitute_list(ts, infer)[i] == ts[i].substitute(
                infer,
            ),
    decreases ts.len(),
{
    if ts.len() > 0 {
        lemma_substitute_list(ts.skip(1), infer);
    }
}

/// Extract the inner type `T` from `Option<T>`; `None` for any other type.
pub fn option_inner_type<'a>(ty: &'a TypeExpr) -> (r: Option<&'a TypeExpr>)
    ensures
        match r {
            Some(inner) => ty@.option_inner() == Some(inner@),
            None => ty@.option_inner() is None,
        },
{
    match ty {
        TypeExpr::Named { name, args, .. } => {
            if str_eq_lit(name, "Option") && args.len() > 0 {
                proof {
                    lemma_type_expr_models(args@);
                }
                Some(&args[0])
            } else {
                None
            }
        },
        _ => None,
    }
}

/// Extract the element type `T` from `Vec<T>`; `None` for any other type.
pub fn vec_inner_type<'a>(ty: &'a TypeExpr) -> (r: Option<&'a TypeExpr>)
    ensures
        match r {
            Some(inner) => ty@.vec_inner() == Some(inner@),
            None => ty@.vec_inner() is None,
        },
{
    match ty {
        TypeExpr::Named { name, args, .. } => {
            if str_eq_lit(name, "Vec") && args.len() > 0 {
                proof {
                    lemma_type_expr_models(args@);
                }
                Some(&args[0])
            } else {
                None
            }
        },
        _ => None,
    }
}

/// Whether a field's declared type is `Option<T>`.
pub fn is_option_type(ty: &TypeExpr) -> (r: bool)
    ensures
        r == ty@.is_option(),
{
    option_inner_type(ty).is_some()
}

/// Whether a type is exactly `Option<_>`: an `Option` wrapping the
/// inference placeholder.
pub fn is_option_infer_type(ty: &TypeExpr) -> (r: bool)
    ensures
        r == ty@.is_option_infer(),
{
    match option_inner_type(ty) {
        Some(inner) => matches!(inner, TypeExpr::Placeholder),
        None => false,
    }
}

/// The first generic argument of a type, if it has one.
pub fn first_generic_arg<'a>(ty: &'a TypeExpr) -> (r: Option<&'a TypeExpr>)
    ensures
        match r {
            Some(inner) => ty@.first_generic_arg() == Some(inner@),
            None => ty@.first_generic_arg() is None,
        },
{
    match ty {
        TypeExpr::Named { args, .. } => {
            if args.len() > 0 {
                proof {
                    lemma_type_expr_models(args@);
                }
                Some(&args[0])
            } else {
                None
            }
        },
        _ => None,
    }
}

/// Whether any type of a list contains a `_` placeholder.
fn contains_infer_list(args: &Vec<TypeExpr>) -> (r: bool)
    ensures
        r == (exists|k: int| 0 <= k < args.len() && args[k]@.contains_infer()),
    decreases args@,
{
    let mut i: usize = 0;
    let mut found: bool = false;
    while i < args.len() && !found
        invariant
            0 <= i <= args.len(),
            found ==> exists|k: int| 0 <= k < i && args[k]@.contains_infer(),
            !found ==> forall|k: int| 0 <= k < i ==> !args[k]@.contains_infer(),
        decreases args.len() - i + (if found { 0int } else { 1int }),
    {
        proof {
            assert(decreases_to!(args@ => args@[i as int]));
        }
        if contains_infer_type(&args[i]) {
            found = true;
        }
        i = i + 1;
    }
    found
}

/// Whether a type contains any `_` placeholder.
pub fn contains_infer_type(ty: &TypeExpr) -> (r: bool)
    ensures
        r == ty@.contains_infer(),
    decreases *ty,
{
    match ty {
        TypeExpr::Placeholder => true,
        TypeExpr::Named { args, .. } => {
            proof {
                assert(decreases_to!(*ty => ty->Named_args));
                assert(decreases_to!(ty->Named_args => ty->Named_args@));
            }
            let found = contains_infer_list(args);
            proof {
                lemma_type_expr_models(args@);
                lemma_any_contains_infer(TypeExpr::models(args@));
                if found {
                    let k = choose|k: int| 0 <= k < args.len() && args[k]@.contains_infer();
                    assert(TypeExpr::models(args@)[k] == args[k]@);
                } else {
                    assert forall|k: int|
                        0 <= k < args@.len() implies !TypeExpr::models(args@)[k].contains_infer() by {
                        assert(TypeExpr::models(args@)[k] == args[k]@);
                    }
                }
            }
            found
        },
    }
}

/// Rebuilds every type of a list with `_` placeholders replaced.
fn substitute_infer_list(args: &Vec<TypeExpr>, infer_ty: &TypeExpr) -> (r: Vec<TypeExpr>)
    ensures
        r.len() == args.len(),
        forall|k: int| 0 <= k < args.len() ==> r[k]@ == args[k]@.substitute(infer_ty@),
    decreases args@,
{
    let mut new_args: Vec<TypeExpr> = Vec::new();
    let mut i: usize = 0;
    while i < args.len()
        invariant
            0 <= i <= args.len(),
            new_args.len() == i,
            forall|k: int| 0 <= k < i ==> new_args[k]@ == args[k]@.substitute(infer_ty@),
        decreases args.len() - i,
    {
        proof {
            assert(decreases_to!(args@ => args@[i as int]));
        }
        new_args.push(substitute_infer_type(&args[i], infer_ty));
        i = i + 1;
    }
    new_args
}

/// Rebuild a type with every `_` placeholder replaced by `infer_ty`.
pub fn substitute_infer_type(ty: &TypeExpr, infer_ty: &TypeExpr) -> (r: TypeExpr)
    ensures
        r@ == ty@.substitute(infer_ty@),
    decreases *ty,
{
    match ty {
        TypeExpr::Placeholder => infer_ty.clone(),
        TypeExpr::Named { qualifier, name, args } => {
            proof {
                assert(decreases_to!(*ty => ty->Named_args));
                assert(decreases_to!(ty->Named_args => ty->Named_args@));
            }
            let new_args = substitute_infer_list(args, infer_ty);
            let r = TypeExpr::Named {
                qualifier: qualifier.clone(),
                name: name.clone(),
                args: new_args,
            };
            proof {
                lemma_type_expr_models(r->Named_args@);
                lemma_type_expr_models(ty->Named_args@);
                lemma_substitute_list(TypeExpr::models(ty->Named_args@), infer_ty@);
                assert(TypeExpr::models(r->Named_args@) =~= TypeExprV::substitute_list(
                    TypeExpr::models(ty->Named_args@),
                    infer_ty@,
                ));
            }
            r
        },
    }
}

/// The effective type a validator checks: for element slots the collection
/// is unwrapped first, then one optional level is unwrapped.
pub fn effective_validation_type<'a>(field_ty: &'a TypeExpr, validate_each: bool) -> (r:
    &'a TypeExpr)
    ensures
        r@ == field_ty@.effective(validate_each),
{
    let after_vec = if validate_each {
        match vec_inner_type(field_ty) {
            Some(t) => t,
            None => field_ty,
        }
    } else {
        field_ty
    };
    match option_inner_type(after_vec) {
        Some(t) => t,
        None => after_vec,
    }
}

/// Whether an invocation asked for the full optional type (`::<Option<_>>`)
/// rather than the `Option`-unwrapped value.
pub fn validator_wants_full_type(v: &ValidatorAttr) -> (r: bool)
    ensures
        r == v@.wants_full_type(),
{
    match &v.explicit_type {
        Some(t) => is_option_infer_type(t),
        None => false,
    }
}

impl ValidatorAttrV {
    /// Whether the invocation asked for the full optional type.
    pub open spec fn wants_full_type(self) -> bool {
        match self.explicit_type {
            Some(t) => t.is_option_infer(),
            None => false,
        }
    }

    /// The type a validator is instantiated with: `None` when the validator
    /// is non-generic; otherwise the concrete type argument.
    ///
    /// An explicit type with placeholders has them substituted with the
    /// first generic argument of the original type (the element type's, for
    /// element slots); an explicit type without placeholders is used as
    /// written; `::<_>` takes the unwrapped effective type.
    pub open spec fn resolved_type(self, field_ty: TypeExprV, validate_each: bool) -> Option<
        TypeExprV,
    > {
        let base = if validate_each {
            match field_ty.vec_inner() {
                Some(t) => t,
                None => field_ty,
            }
        } else {
            field_ty
        };
        match self.explicit_type {
            Some(et) => if et.contains_infer() {
                let inner = match base.first_generic_arg() {
                    Some(t) => t,
                    None => base,
                };
                Some(et.substitute(inner))
            } else {
                Some(et)
            },
            None => if self.infer_type {
                Some(field_ty.effective(validate_each))
            } else {
                None
            },
        }
    }
}

/// Element-slot inference law. For a field typed `Vec<Inner>` where `Inner`
/// is a plain named type: an invocation `V::<_>` resolved in the element
/// slot is instantiated with `Inner` itself, and an invocation
/// `V::<Outer<_>>` resolved in the element slot is instantiated with
/// `Outer<Inner>`.
pub proof fn lemma_element_inference(
    v_infer: ValidatorAttrV,
    v_partial: ValidatorAttrV,
    field_ty: TypeExprV,
    inner: TypeExprV,
    outer: TypeExprV,
)
    requires
        field_ty matches (TypeExprV::Named { name, args, .. }) && name == "Vec"@ && args =~= seq![
            inner,
        ],
        inner matches (TypeExprV::Named { args, .. }) && args.len() == 0 && !inner.is_option(),
        v_infer.infer_type,
        v_infer.explicit_type is None,
        outer matches (TypeExprV::Named { args, .. }) && args =~= seq![TypeExprV::Placeholder],
        !(outer->Named_name == "Option"@),
        v_partial.explicit_type == Some(outer),
    ensures
        v_infer.resolved_type(field_ty, true) == Some(inner),
        v_partial.resolved_type(field_ty, true) == Some(
            TypeExprV::Named {
                qualifier: outer->Named_qualifier,
                name: outer->Named_name,
                args: seq![inner],
            },
        ),
{
    assert(field_ty.vec_inner() == Some(inner));
    assert(inner.option_inner() is None);
    assert(field_ty.effective(true) == inner);
    lemma_any_contains_infer(outer->Named_args);
    assert(outer->Named_args[0].contains_infer());
    assert(outer.contains_infer());
    assert(inner.first_generic_arg() is None);
    lemma_substitute_list(outer->Named_args, inner);
    assert(outer.substitute(inner)->Named_args =~= seq![inner]);
}

/// The concrete type to instantiate a validator with for a given field:
/// `None` when the invocation named no type parameter (the validator is
/// used non-generically), otherwise the resolved type argument.
pub fn validator_type_for_field(v: &ValidatorAttr, field_ty: &TypeExpr, validate_each: bool) -> (r:
    Option<TypeExpr>)
    ensures
        match r {
            Some(t) => v@.resolved_type(field_ty@, validate_each) == Some(t@),
            None => v@.resolved_type(field_ty@, validate_each) is None,
        },
{
    let base = if validate_each {
        match vec_inner_type(field_ty) {
            Some(t) => t,
            None => field_ty,
        }
    } else {
        field_ty
    };
    match &v.explicit_type {
        Some(et) => {
            if contains_infer_type(et) {
                let inner = match first_generic_arg(base) {
                    Some(t) => t,
                    None => base,
                };
                Some(substitute_infer_type(et, inner))
            } else {
                Some(et.clone())
            }
        },
        None => {
            if v.infer_type {
                Some(effective_validation_type(field_ty, validate_each).clone())
            } else {
                None
            }
        },
    }
}

} // verus!
