//! Validating decorators for request extractors.
//!
//! An *inner extractor* turns part of an HTTP request into a typed value.
//! The wrapper types of this crate ([`validator::Valid`], [`validator::ValidEx`],
//! [`garde::Garde`], [`validify::Validated`], [`validify::Modified`],
//! [`validify::Validified`], [`validify::ValidifiedByRef`]) decorate such an
//! extractor: once the inner extraction has produced a value, they project out
//! the validatable part through a capability trait, run a validation pass over
//! it, and either yield the wrapped value unchanged or fail with a typed
//! rejection that tells an inner-extraction failure apart from a validation
//! failure.
//!
//! The asynchronous extraction step itself belongs to the surrounding
//! framework; the decorators here take its result as a plain `Result` and
//! contain the entire decision pipeline: delegate, project, validate, wrap or
//! fail.

use vstd::prelude::*;

pub mod extra;
pub mod garde;
pub mod params;
pub mod report;
pub mod response;
pub mod text;
pub mod validator;
pub mod validify;

pub use crate::garde::Garde;
pub use crate::garde::GardeRejection;
pub use crate::validator::HasValidateArgs;
pub use crate::validator::Valid;
pub use crate::validator::ValidEx;
pub use crate::validator::ValidRejection;
pub use crate::validify::HasModify;
pub use crate::validify::HasValidify;
pub use crate::validify::Modified;
pub use crate::validify::PayloadExtractor;
pub use crate::validify::Validated;
pub use crate::validify::Validified;
pub use crate::validify::ValidifiedByRef;
pub use crate::validify::ValidifyRejection;

verus! {

/// Default HTTP status code returned when there are validation errors.
pub const VALIDATION_ERROR_STATUS: u16 = 400;

/// Trait for types that can supply a reference that can be validated.
///
/// Extractor types `T` that implement this trait can be used with `Valid`,
/// `Garde` or `Validated`.
pub trait HasValidate {
    /// Inner type that can be validated for correctness.
    type Validate;

    /// The validatable part of this value, as a mathematical projection.
    spec fn validate_view(&self) -> Self::Validate;

    /// Get the inner value.
    fn get_validate(&self) -> (r: &Self::Validate)
        ensures
            *r == self.validate_view(),
    ;
}

/// `ValidationRejection` is returned when a validating extractor fails.
///
/// The `Valid` variant captures errors related to the validation logic,
/// the `Inner` variant carries the inner extractor's own error, untouched.
#[derive(Debug)]
pub enum ValidationRejection<V, E> {
    /// One or more declared validation rules were violated.
    Valid(V),
    /// The inner extractor failed to produce a value at all.
    Inner(E),
}

impl<V, E> ValidationRejection<V, E> {
    /// True when this rejection reports a validation failure.
    pub fn is_valid_failure(&self) -> (r: bool)
        ensures
            r == (self is Valid),
    {
        match self {
            ValidationRejection::Valid(_) => true,
            ValidationRejection::Inner(_) => false,
        }
    }

    /// True when this rejection carries the inner extractor's error.
    pub fn is_inner_failure(&self) -> (r: bool)
        ensures
            r == (self is Inner),
    {
        match self {
            ValidationRejection::Valid(_) => false,
            ValidationRejection::Inner(_) => true,
        }
    }

    /// The validation error underlying this rejection, if any.
    pub fn as_valid(&self) -> (r: Option<&V>)
        ensures
            match r {
                Some(v) => self is Valid && *v == self->Valid_0,
                None => self is Inner,
            },
    {
        match self {
            ValidationRejection::Valid(v) => Some(v),
            ValidationRejection::Inner(_) => None,
        }
    }

    /// The inner extractor's error underlying this rejection, if any.
    pub fn as_inner(&self) -> (r: Option<&E>)
        ensures
            match r {
                Some(e) => self is Inner && *e == self->Inner_0,
                None => self is Valid,
            },
    {
        match self {
            ValidationRejection::Valid(_) => None,
            ValidationRejection::Inner(e) => Some(e),
        }
    }
}

impl ValidationRejection<report::Report, String> {
    /// The rendering of this rejection, which is the rendering of whichever
    /// error it carries: the report's plain-text rendering, or the inner
    /// error itself.
    pub fn message(&self) -> (r: String)
        ensures
            self matches ValidationRejection::Valid(rep) ==> r@ == report::text_of(rep@),
            self matches ValidationRejection::Inner(e) ==> r@ == e@,
    {
        match self {
            ValidationRejection::Valid(rep) => rep.render(),
            ValidationRejection::Inner(e) => e.clone(),
        }
    }
}

impl<E> From<report::Report> for ValidationRejection<report::Report, E> {
    /// A validation report converts to the `Valid` rejection carrying it.
    fn from(value: report::Report) -> (r: Self) {
        ValidationRejection::Valid(value)
    }
}

impl<E> vstd::std_specs::convert::FromSpecImpl<report::Report> for ValidationRejection<report::Report, E> {
    open spec fn obeys_from_spec() -> bool {
        true
    }

    open spec fn from_spec(t: report::Report) -> Self {
        ValidationRejection::Valid(t)
    }
}

} // verus!
