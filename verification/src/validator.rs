//! The struct-attribute validation back-end: values that declare their own
//! rules ([`Validate`]) or validate against externally supplied arguments
//! ([`ValidateArgs`]), and the decorators [`Valid`] and [`ValidEx`] built on
//! them.

use vstd::prelude::*;
use crate::report::Report;
use crate::response::STATUS_INTERNAL_SERVER_ERROR;
use crate::response::STATUS_OK;
use crate::HasValidate;
use crate::ValidationRejection;

verus! {

/// Capability of a value that declares validation rules of its own.
///
/// One validation pass is a pure predicate over the value: it reports every
/// violated rule, keyed by field name, and changes nothing.
pub trait Validate {
    /// The violations of the declared rules on this value: field name and
    /// rule code of every violated rule, in declaration order.
    spec fn violations(&self) -> Seq<(Seq<char>, Seq<char>)>;

    /// Runs the validation pass over this value.
    fn validate(&self) -> (r: Result<(), Report>)
        ensures
            r is Ok <==> self.violations().len() == 0,
            r matches Err(rep) ==> rep@ == self.violations(),
    ;
}

/// Capability of a value whose rules take externally supplied arguments,
/// enabling cross-field or externally parameterized rules: which inputs are
/// accepted depends on the arguments, not on the type alone.
pub trait ValidateArgs {
    /// The type of the validation arguments.
    type Args;

    /// The violations of the declared rules on this value under `args`.
    spec fn violations_with(&self, args: &Self::Args) -> Seq<(Seq<char>, Seq<char>)>;

    /// Runs the validation pass over this value under `args`.
    fn validate_with_args(&self, args: &Self::Args) -> (r: Result<(), Report>)
        ensures
            r is Ok <==> self.violations_with(args).len() == 0,
            r matches Err(rep) ==> rep@ == self.violations_with(args),
    ;
}

/// Trait for types that can supply a reference that can be validated using
/// arguments.
///
/// Extractor types `T` that implement this trait can be used with `ValidEx`.
pub trait HasValidateArgs {
    /// Inner type that can be validated using arguments.
    type ValidateArgs;

    /// The validatable part of this value, as a mathematical projection.
    spec fn validate_args_view(&self) -> Self::ValidateArgs;

    /// Get the inner value.
    fn get_validate_args(&self) -> (r: &Self::ValidateArgs)
        ensures
            *r == self.validate_args_view(),
    ;
}

/// `ValidRejection` is returned when the `Valid` or `ValidEx` decorator
/// fails.
pub type ValidRejection<E> = ValidationRejection<Report, E>;

/// # `Valid` data decorator
///
/// Wraps an inner extractor and validates the extracted value before handing
/// it on: the wrapped value is exactly what the inner extractor produced.
/// It can be used with any inner type that implements the [`HasValidate`]
/// trait and whose validatable part implements [`Validate`].
#[derive(Debug, Clone, Copy, Default)]
pub struct Valid<E>(pub E);

impl<E> Valid<E> {
    /// Consume the `Valid` decorator and return the inner type.
    pub fn into_inner(self) -> (r: E)
        ensures
            r == self.0,
    {
        self.0
    }

    /// The inner value, by reference.
    pub fn get(&self) -> (r: &E)
        ensures
            *r == self.0,
    {
        &self.0
    }
}

impl<Inner: HasValidate> Valid<Inner> where Inner::Validate: Validate {
    /// The whole decision the decorator takes once the framework's own
    /// extraction step has run, as a function of that step's result.
    ///
    /// An extraction failure is passed on untouched as the `Inner` rejection.
    /// An extracted value whose validatable part satisfies every declared
    /// rule is handed on unchanged; otherwise the `Valid` rejection carries a
    /// report of every violated rule.
    pub fn from_extracted<E>(extracted: Result<Inner, E>) -> (r: Result<Valid<Inner>, ValidRejection<E>>)
        ensures
            extracted matches Err(e) ==> (r matches Err(ValidationRejection::Inner(e2)) && e2 == e),
            extracted matches Ok(v) ==> {
                &&& v.validate_view().violations().len() == 0 ==> (r matches Ok(w) && w.0 == v)
                &&& v.validate_view().violations().len() > 0 ==> (r matches Err(
                    ValidationRejection::Valid(rep),
                ) && rep@ == v.validate_view().violations())
            },
    {
        match extracted {
            Err(e) => Err(ValidationRejection::Inner(e)),
            Ok(inner) => match inner.get_validate().validate() {
                Ok(()) => Ok(Valid(inner)),
                Err(rep) => Err(ValidationRejection::Valid(rep)),
            },
        }
    }
}

/// # `ValidEx` data decorator
///
/// `ValidEx` can wrap the same inner extractors as `Valid`. Two differences
/// exist between `ValidEx` and `Valid`:
///
/// - The inner data type in `ValidEx` implements [`ValidateArgs`] instead of
///   [`Validate`].
/// - Its extraction takes a second value representing the arguments used
///   during validation.
#[derive(Debug, Clone, Copy, Default)]
pub struct ValidEx<E>(pub E);

impl<E> ValidEx<E> {
    /// Consumes the `ValidEx` and returns the validated data within.
    pub fn into_inner(self) -> (r: E)
        ensures
            r == self.0,
    {
        self.0
    }

    /// The inner value, by reference.
    pub fn get(&self) -> (r: &E)
        ensures
            *r == self.0,
    {
        &self.0
    }
}

impl<Inner: HasValidateArgs> ValidEx<Inner> where Inner::ValidateArgs: ValidateArgs {
    /// The decision the `ValidEx` decorator takes once the framework's own
    /// extraction step has run, under the validation arguments `args` that
    /// the surrounding application supplies (per route or process-wide).
    pub fn from_extracted<E>(
        extracted: Result<Inner, E>,
        args: &<Inner::ValidateArgs as ValidateArgs>::Args,
    ) -> (r: Result<ValidEx<Inner>, ValidRejection<E>>)
        ensures
            extracted matches Err(e) ==> (r matches Err(ValidationRejection::Inner(e2)) && e2 == e),
            extracted matches Ok(v) ==> {
                &&& v.validate_args_view().violations_with(args).len() == 0 ==> (r matches Ok(w)
                    && w.0 == v)
                &&& v.validate_args_view().violations_with(args).len() > 0 ==> (r matches Err(
                    ValidationRejection::Valid(rep),
                ) && rep@ == v.validate_args_view().violations_with(args))
            },
    {
        match extracted {
            Err(e) => Err(ValidationRejection::Inner(e)),
            Ok(inner) => match inner.get_validate_args().validate_with_args(args) {
                Ok(()) => Ok(ValidEx(inner)),
                Err(rep) => Err(ValidationRejection::Valid(rep)),
            },
        }
    }
}

/// Runs the validation pass once more over an already extracted value.
///
/// Validation is a pure predicate with no side effects on the data, so on a
/// value that one pass has accepted a second pass never fails: a decorator
/// handing on a validated value makes this return `STATUS_OK`.
pub fn validate_again<V: Validate>(value: &V) -> (r: u16)
    ensures
        (r == STATUS_OK) <==> value.violations().len() == 0,
        r == STATUS_OK || r == STATUS_INTERNAL_SERVER_ERROR,
{
    match value.validate() {
        Ok(()) => STATUS_OK,
        Err(_) => STATUS_INTERNAL_SERVER_ERROR,
    }
}

} // verus!
