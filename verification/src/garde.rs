//! The context-aware validation back-end: the [`Garde`] decorator validates
//! the extracted value against a context that the surrounding application
//! supplies per route or per process, so that the set of accepted inputs can
//! change without touching the data type.

use vstd::prelude::*;
use crate::report::Report;
use crate::validator::ValidateArgs;
use crate::HasValidate;
use crate::ValidationRejection;

verus! {

/// `GardeRejection` is returned when the `Garde` decorator fails.
pub type GardeRejection<E> = ValidationRejection<Report, E>;

/// # `Garde` data decorator
///
/// Wraps an inner extractor and validates the extracted value against a
/// supplied context before handing it on. It can be used with any inner type
/// that implements the [`HasValidate`] trait and whose validatable part
/// implements [`ValidateArgs`] for the context type.
#[derive(Debug, Clone, Copy, Default)]
pub struct Garde<E>(pub E);

impl<E> Garde<E> {
    /// Consumes the `Garde` and returns the validated data within.
    pub fn into_inner(self) -> (r: E)
        ensures
            r == self.0,
    {
        self.0
    }

    /// The inner value, by reference.
    pub fn get(&self) -> (r: &E)
        ensures
            *r == self.0,
    {
        &self.0
    }
}

impl<Inner: HasValidate> Garde<Inner> where Inner::Validate: ValidateArgs {
    /// The decision the `Garde` decorator takes once the framework's own
    /// extraction step has run, under the validation context that the
    /// surrounding application supplies.
    ///
    /// An extraction failure is passed on untouched as the `Inner` rejection;
    /// a value accepted under `context` is handed on unchanged; a value that
    /// violates at least one rule under `context` fails with a report of
    /// every violated rule.
    pub fn from_extracted<E>(
        context: &<Inner::Validate as ValidateArgs>::Args,
        extracted: Result<Inner, E>,
    ) -> (r: Result<Garde<Inner>, GardeRejection<E>>)
        ensures
            extracted matches Err(e) ==> (r matches Err(ValidationRejection::Inner(e2)) && e2 == e),
            extracted matches Ok(v) ==> {
                &&& v.validate_view().violations_with(context).len() == 0 ==> (r matches Ok(w)
                    && w.0 == v)
                &&& v.validate_view().violations_with(context).len() > 0 ==> (r matches Err(
                    ValidationRejection::Valid(rep),
                ) && rep@ == v.validate_view().violations_with(context))
            },
    {
        match extracted {
            Err(e) => Err(ValidationRejection::Inner(e)),
            Ok(inner) => match inner.get_validate().validate_with_args(context) {
                Ok(()) => Ok(Garde(inner)),
                Err(rep) => Err(ValidationRejection::Valid(rep)),
            },
        }
    }
}

} // verus!
