//! The modify-then-validate back-end: values that can be altered in place
//! (trimming, case normalization) before validation, optionally constructed
//! from a raw payload first, and the decorators [`Validated`], [`Modified`],
//! [`Validified`] and [`ValidifiedByRef`] built on that.

use vstd::prelude::*;
use crate::report::Report;
use crate::validator::Validate;
use crate::HasValidate;
use crate::ValidationRejection;

verus! {

/// `ValidifyRejection` is returned when the `Validated` / `Validified` /
/// `ValidifiedByRef` decorator fails.
pub type ValidifyRejection<E> = ValidationRejection<Report, E>;

/// Capability of a value that can be modified in place before validation:
/// operations like trimming and case normalization.
pub trait Modify: Sized {
    /// Whether `self` is exactly what `original` becomes under the declared
    /// modifications. Each implementation pins the outcome down over the
    /// views of its fields.
    spec fn is_modification_of(&self, original: &Self) -> bool;

    /// Applies the declared modifications in place.
    fn modify(&mut self)
        ensures
            final(self).is_modification_of(old(self)),
    ;
}

/// Trait for types that can supply the part of them that can be modified.
///
/// Extractor types `T` that implement this trait can be used with `Modified`.
pub trait HasModify: Sized {
    /// Inner type that can be modified.
    type Modify: Modify;

    /// The modifiable part of this value.
    spec fn modify_view(&self) -> Self::Modify;

    /// Whether `after` is this value with the declared modifications applied
    /// to its modifiable part and everything else kept as it is. Each
    /// implementation pins the outcome down over the views of its fields.
    spec fn modified_into(&self, after: &Self) -> bool;

    /// Applies the declared modifications to the modifiable part, leaving
    /// the rest of the value as it is.
    fn apply_modify(&mut self)
        ensures
            old(self).modified_into(final(self)),
    ;
}

/// Extractor to extract the payload for constructing data.
pub trait PayloadExtractor: Sized {
    /// Type of the payload for constructing data.
    type Payload;

    /// The payload this extractor carries.
    spec fn payload_view(self) -> Self::Payload;

    /// Get the payload from the extractor.
    fn get_payload(self) -> (r: Self::Payload)
        ensures
            r == self.payload_view(),
    ;
}

/// Capability of a value that is constructed from a raw payload, then
/// modified and validated. Missing parts of the payload count as validation
/// errors of their own.
pub trait ValidifyPayload: Sized + Validate + Modify {
    /// Type of the payload the value is constructed from.
    type Payload;

    /// The violations reported at construction from `p`: the required parts
    /// that `p` leaves out.
    spec fn construction_violations(p: &Self::Payload) -> Seq<(Seq<char>, Seq<char>)>;

    /// The value constructed from `p`, before modification. Meaningful only
    /// when construction reports no violation.
    spec fn constructed(p: &Self::Payload) -> Self;

    /// Constructs the value from `p`, applies the declared modifications and
    /// runs the validation pass: the result is the modified value, or the
    /// report of the construction violations, or the report of the violated
    /// rules on the modified value.
    fn validify_from(p: Self::Payload) -> (r: Result<Self, Report>)
        ensures
            ({
                let cv = Self::construction_violations(&p);
                &&& cv.len() > 0 ==> (r matches Err(rep) && rep@ == cv)
                &&& cv.len() == 0 ==> match r {
                    Ok(v) => v.is_modification_of(&Self::constructed(&p)) && v.violations().len()
                        == 0,
                    Err(rep) => exists|m: Self|
                        m.is_modification_of(&Self::constructed(&p)) && rep@ == m.violations()
                            && rep@.len() > 0,
                }
            }),
    ;
}

/// Trait for extractors whose inner data type can be constructed from some
/// payload, then modified and validated.
///
/// Extractor types `T` that implement this trait can be used with
/// `Validified`.
pub trait HasValidify: Sized {
    /// Inner type that can be constructed, modified and validated.
    type Validify: ValidifyPayload;

    /// Extracts the payload from the request, which will be used to construct
    /// the `Self::Validify` type and perform modification and validation on
    /// it.
    type PayloadExtractor: PayloadExtractor<
        Payload = <Self::Validify as ValidifyPayload>::Payload,
    >;

    /// What re-packaging the validified data into this type yields.
    spec fn spec_from_validify(v: Self::Validify) -> Self;

    /// Re-packages the validified data back into the inner extractor type.
    fn from_validify(v: Self::Validify) -> (r: Self)
        ensures
            r == Self::spec_from_validify(v),
    ;
}

/// # `Validated` data decorator
///
/// `Validated` provides simple data validation in the modify-then-validate
/// back-end. It only does validation; usage is like `Valid`.
#[derive(Debug, Clone, Copy, Default)]
pub struct Validated<E>(pub E);

impl<E> Validated<E> {
    /// Consumes the `Validated` and returns the validated data within.
    pub fn into_inner(self) -> (r: E)
        ensures
            r == self.0,
    {
        self.0
    }

    /// The inner value, by reference.
    pub fn get(&self) -> (r: &E)
        ensures
            *r == self.0,
    {
        &self.0
    }
}

impl<Inner: HasValidate> Validated<Inner> where Inner::Validate: Validate {
    /// The decision the `Validated` decorator takes once the framework's own
    /// extraction step has run: pass an extraction failure on untouched, hand
    /// an extracted value satisfying every declared rule on unchanged, and
    /// fail otherwise with a report of every violated rule.
    pub fn from_extracted<E>(extracted: Result<Inner, E>) -> (r: Result<
        Validated<Inner>,
        ValidifyRejection<E>,
    >)
        ensures
            extracted matches Err(e) ==> (r matches Err(ValidationRejection::Inner(e2)) && e2 == e),
            extracted matches Ok(v) ==> {
                &&& v.validate_view().violations().len() == 0 ==> (r matches Ok(w) && w.0 == v)
                &&& v.validate_view().violations().len() > 0 ==> (r matches Err(
                    ValidationRejection::Valid(rep),
                ) && rep@ == v.validate_view().violations())
            },
    {
        match extracted {
            Err(e) => Err(ValidationRejection::Inner(e)),
            Ok(inner) => match inner.get_validate().validate() {
                Ok(()) => Ok(Validated(inner)),
                Err(rep) => Err(ValidationRejection::Valid(rep)),
            },
        }
    }
}

/// # `Modified` data decorator
///
/// `Modified` applies the declared in-place modifications to the extracted
/// value, without validation. An extraction failure stays the inner
/// extractor's own error.
#[derive(Debug, Clone, Copy, Default)]
pub struct Modified<E>(pub E);

impl<E> Modified<E> {
    /// Consumes the `Modified` and returns the modified data within.
    pub fn into_inner(self) -> (r: E)
        ensures
            r == self.0,
    {
        self.0
    }

    /// The inner value, by reference.
    pub fn get(&self) -> (r: &E)
        ensures
            *r == self.0,
    {
        &self.0
    }
}

impl<Inner: HasModify> Modified<Inner> {
    /// The decision the `Modified` decorator takes once the framework's own
    /// extraction step has run: pass an extraction failure on untouched,
    /// otherwise apply the declared modifications to the extracted value and
    /// hand it on.
    pub fn from_extracted<E>(extracted: Result<Inner, E>) -> (r: Result<Modified<Inner>, E>)
        ensures
            extracted matches Err(e) ==> (r matches Err(e2) && e2 == e),
            extracted matches Ok(v) ==> (r matches Ok(w) && v.modified_into(&w.0)),
    {
        match extracted {
            Err(e) => Err(e),
            Ok(mut inner) => {
                inner.apply_modify();
                Ok(Modified(inner))
            },
        }
    }

    /// The response path of `Modified`: applies the declared modifications
    /// once more and hands the inner value back, for the caller to convert
    /// into a response of its own.
    pub fn into_modified(self) -> (r: Inner)
        ensures
            self.0.modified_into(&r),
    {
        let mut inner = self.0;
        inner.apply_modify();
        inner
    }
}

/// # `Validified` data decorator
///
/// `Validified` provides construction, modification and validation. The
/// inner extractor produces a raw payload; the value is constructed from it,
/// with missing payload fields treated as validation errors, then modified in
/// place and validated.
#[derive(Debug, Clone, Copy, Default)]
pub struct Validified<E>(pub E);

impl<E> Validified<E> {
    /// Consumes the `Validified` and returns the modified and validated data
    /// within.
    pub fn into_inner(self) -> (r: E)
        ensures
            r == self.0,
    {
        self.0
    }

    /// The inner value, by reference.
    pub fn get(&self) -> (r: &E)
        ensures
            *r == self.0,
    {
        &self.0
    }
}

impl<Inner: HasValidify> Validified<Inner> {
    /// The decision the `Validified` decorator takes once the framework's own
    /// extraction step has produced the payload extractor: pass an extraction
    /// failure on untouched; construct the value from the payload, missing
    /// parts counting as violations; modify it in place; validate it; and
    /// hand on the re-packaged value or the report of every violation.
    pub fn from_extracted<E>(extracted: Result<Inner::PayloadExtractor, E>) -> (r: Result<
        Validified<Inner>,
        ValidifyRejection<E>,
    >)
        ensures
            extracted matches Err(e) ==> (r matches Err(ValidationRejection::Inner(e2)) && e2 == e),
            extracted matches Ok(pe) ==> ({
                let p = pe.payload_view();
                let cv = <Inner::Validify as ValidifyPayload>::construction_violations(&p);
                &&& cv.len() > 0 ==> (r matches Err(ValidationRejection::Valid(rep)) && rep@ == cv)
                &&& cv.len() == 0 ==> match r {
                    Ok(w) => exists|m: Inner::Validify|
                        m.is_modification_of(
                            &<Inner::Validify as ValidifyPayload>::constructed(&p),
                        ) && m.violations().len() == 0 && w.0 == Inner::spec_from_validify(m),
                    Err(rej) => rej matches ValidationRejection::Valid(rep) && exists|
                        m: Inner::Validify,
                    |
                        m.is_modification_of(
                            &<Inner::Validify as ValidifyPayload>::constructed(&p),
                        ) && rep@ == m.violations() && rep@.len() > 0,
                }
            }),
    {
        match extracted {
            Err(e) => Err(ValidationRejection::Inner(e)),
            Ok(pe) => {
                let payload = pe.get_payload();
                match <Inner::Validify as ValidifyPayload>::validify_from(payload) {
                    Ok(v) => Ok(Validified(Inner::from_validify(v))),
                    Err(rep) => Err(ValidationRejection::Valid(rep)),
                }
            },
        }
    }
}

/// # `ValidifiedByRef` data decorator
///
/// `ValidifiedByRef` is similar to `Validified`, but operates via reference:
/// the extracted value itself is modified in place and then validated,
/// without a payload step. Suitable for inner extractors that produce the
/// value directly.
#[derive(Debug, Clone, Copy, Default)]
pub struct ValidifiedByRef<E>(pub E);

impl<E> ValidifiedByRef<E> {
    /// Consumes the `ValidifiedByRef` and returns the modified and validated
    /// data within.
    pub fn into_inner(self) -> (r: E)
        ensures
            r == self.0,
    {
        self.0
    }

    /// The inner value, by reference.
    pub fn get(&self) -> (r: &E)
        ensures
            *r == self.0,
    {
        &self.0
    }
}

impl<Inner: HasValidate + HasModify> ValidifiedByRef<Inner> where Inner::Validate: Validate {
    /// The decision the `ValidifiedByRef` decorator takes once the
    /// framework's own extraction step has run: pass an extraction failure on
    /// untouched; apply the declared modifications to the extracted value;
    /// validate the modified value; and hand it on, or fail with a report of
    /// every violated rule.
    pub fn from_extracted<E>(extracted: Result<Inner, E>) -> (r: Result<
        ValidifiedByRef<Inner>,
        ValidifyRejection<E>,
    >)
        ensures
            extracted matches Err(e) ==> (r matches Err(ValidationRejection::Inner(e2)) && e2 == e),
            extracted matches Ok(v) ==> match r {
                Ok(w) => v.modified_into(&w.0) && w.0.validate_view().violations().len() == 0,
                Err(rej) => rej matches ValidationRejection::Valid(rep) && exists|m: Inner|
                    v.modified_into(&m) && rep@ == m.validate_view().violations() && rep@.len()
                        > 0,
            },
    {
        match extracted {
            Err(e) => Err(ValidationRejection::Inner(e)),
            Ok(mut inner) => {
                inner.apply_modify();
                match inner.get_validate().validate() {
                    Ok(()) => Ok(ValidifiedByRef(inner)),
                    Err(rep) => Err(ValidationRejection::Valid(rep)),
                }
            },
        }
    }
}

} // verus!
