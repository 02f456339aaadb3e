//! A worked record with delegating fields: a `nested` field hands
//! validation to its value's own `validate` and stores the returned
//! error verbatim; an optional nested field is skipped when absent; a
//! `newtype` field does the same behind a wrapper exposing `inner`. No
//! ad hoc validators are synthesized for a delegating field.

use vstd::prelude::*;

use crate::records::wrap::{AccessCode, AccessCodeKorumaValidationError};
use crate::traits::{Validate, ValidationError};

verus! {

/// A record whose fields all carry their own `validate`: `code` and
/// `badge` are always checked, `backup` only when present.
#[derive(Debug, Clone)]
pub struct Registration {
    /// A nested field: validated through [`AccessCode::validate`].
    pub code: AccessCode,
    /// An optional nested field: skipped when absent.
    pub backup: Option<AccessCode>,
    /// A newtype field: validated like a nested field, but its error is
    /// held behind a wrapper with transparent `inner` access.
    pub badge: AccessCode,
}

/// The wrapper error of the newtype field `badge`: it holds the inner
/// value's own error and exposes it through `inner`.
#[derive(Clone, Debug)]
pub struct RegistrationBadgeKorumaValidationError {
    pub inner: Option<AccessCodeKorumaValidationError>,
}

impl RegistrationBadgeKorumaValidationError {
    /// The inner value's own error, if its validation failed.
    pub fn inner(&self) -> (r: Option<&AccessCodeKorumaValidationError>)
        ensures
            r is Some <==> self.inner is Some,
            r matches Some(e) ==> *e == self.inner->Some_0,
    {
        self.inner.as_ref()
    }

    /// True when the inner validation did not fail.
    pub fn is_empty(&self) -> (r: bool)
        ensures
            r == (self.inner is None),
    {
        self.inner.is_none()
    }
}

/// Aggregate validation error for [`Registration`]: the nested fields'
/// members reuse [`AccessCodeKorumaValidationError`] directly instead of
/// a synthesized per-field error type.
#[derive(Clone, Debug)]
pub struct RegistrationKorumaValidationError {
    pub code: Option<AccessCodeKorumaValidationError>,
    pub backup: Option<AccessCodeKorumaValidationError>,
    pub badge: RegistrationBadgeKorumaValidationError,
}

impl RegistrationKorumaValidationError {
    /// The `code` field's error: the inner value's own error, verbatim.
    pub fn code(&self) -> (r: Option<&AccessCodeKorumaValidationError>)
        ensures
            r is Some <==> self.code is Some,
            r matches Some(e) ==> *e == self.code->Some_0,
    {
        self.code.as_ref()
    }

    /// The `backup` field's error, absent when the field was absent or
    /// valid.
    pub fn backup(&self) -> (r: Option<&AccessCodeKorumaValidationError>)
        ensures
            r is Some <==> self.backup is Some,
            r matches Some(e) ==> *e == self.backup->Some_0,
    {
        self.backup.as_ref()
    }

    /// The `badge` field's wrapper error.
    pub fn badge(&self) -> (r: &RegistrationBadgeKorumaValidationError)
        ensures
            r == self.badge,
    {
        &self.badge
    }
}

impl ValidationError for RegistrationKorumaValidationError {
    /// True exactly when no delegated validation failed.
    fn is_empty(&self) -> (r: bool)
        ensures
            r == (self.code is None && self.backup is None && self.badge.inner is None),
    {
        self.code.is_none() && self.backup.is_none() && self.badge.is_empty()
    }
}

impl Registration {
    /// Whether every delegated check of this record passes.
    pub open spec fn spec_valid(&self) -> bool {
        &&& self.code.spec_valid()
        &&& (self.backup matches Some(b) ==> b.spec_valid())
        &&& self.badge.spec_valid()
    }

    /// Validates by delegation: each field's own `validate` runs — the
    /// absent optional `backup` is skipped — and a returned error is
    /// stored verbatim in the field's member (behind `inner` for the
    /// newtype field). Every field is visited; failures are collected.
    pub fn validate(&self) -> (r: Result<(), RegistrationKorumaValidationError>)
        ensures
            r is Ok <==> self.spec_valid(),
            r matches Err(e) ==> {
                &&& (e.code is Some <==> !self.code.spec_valid())
                &&& (e.code matches Some(inner) ==> inner.string_length_validation is Some && (
                inner.string_length_validation matches Some(v) ==> v.min == 4usize && v.max
                    == 8usize && v.input@ == self.code.value@))
                &&& (e.backup is Some <==> (self.backup matches Some(b) && !b.spec_valid()))
                &&& (e.backup matches Some(inner) ==> inner.string_length_validation is Some && (
                inner.string_length_validation matches Some(v) ==> v.min == 4usize && v.max
                    == 8usize && v.input@ == self.backup->Some_0.value@))
                &&& (e.badge.inner is Some <==> !self.badge.spec_valid())
                &&& (e.badge.inner matches Some(inner) ==> inner.string_length_validation is Some
                    && (inner.string_length_validation matches Some(v) ==> v.min == 4usize
                    && v.max == 8usize && v.input@ == self.badge.value@))
            },
    {
        let mut error = RegistrationKorumaValidationError {
            code: None,
            backup: None,
            badge: RegistrationBadgeKorumaValidationError { inner: None },
        };
        let mut has_error = false;
        match self.code.validate() {
            Ok(()) => {},
            Err(nested_err) => {
                error.code = Some(nested_err);
                has_error = true;
            },
        }
        if let Some(backup) = &self.backup {
            match backup.validate() {
                Ok(()) => {},
                Err(nested_err) => {
                    error.backup = Some(nested_err);
                    has_error = true;
                },
            }
        }
        match self.badge.validate() {
            Ok(()) => {},
            Err(newtype_err) => {
                error.badge.inner = Some(newtype_err);
                has_error = true;
            },
        }
        if has_error {
            Err(error)
        } else {
            Ok(())
        }
    }
}

} // verus!
