//! Support for composing the validating decorators with rejection-swapping
//! extractors: a rejection type that wraps a decorator's rejection and renders
//! it under a fixed marker status code.

use vstd::prelude::*;
use crate::params::ParametersRejection;
use crate::report::text_of;
use crate::response::Response;
use crate::response::BodyKind;
use crate::response::STATUS_CONFLICT;
use crate::response::STATUS_IM_A_TEAPOT;
use crate::validator::ValidRejection;
use crate::ValidationRejection;

verus! {

/// The rejection used when a rejection-swapping extractor wraps the plain
/// header-based extraction: it carries that extraction's rejection and
/// renders it with the status replaced by one fixed conflict status.
pub struct ValidWithRejectionRejection {
    /// The header extraction's rejection this one carries.
    pub inner: ParametersRejection,
}

impl From<ParametersRejection> for ValidWithRejectionRejection {
    /// Wraps the extraction's rejection unchanged.
    fn from(inner: ParametersRejection) -> (r: Self) {
        Self { inner }
    }
}

impl vstd::std_specs::convert::FromSpecImpl<ParametersRejection> for ValidWithRejectionRejection {
    open spec fn obeys_from_spec() -> bool {
        true
    }

    open spec fn from_spec(t: ParametersRejection) -> Self {
        ValidWithRejectionRejection { inner: t }
    }
}

impl ValidWithRejectionRejection {
    /// Renders the carried rejection with its body kept and the status
    /// replaced by the conflict status.
    pub fn into_response(self) -> (r: Response)
        ensures
            r.status == STATUS_CONFLICT,
            r.kind == BodyKind::Text,
            self.inner matches ParametersRejection::Null ==> r.body@
                == "My-Data header is missing"@,
            self.inner matches ParametersRejection::InvalidJson(e) ==> r.body@
                == "My-Data is not valid json string: "@ + e@,
    {
        let mut response = self.inner.into_response();
        response.status = STATUS_CONFLICT;
        response
    }
}

/// The rejection used when a rejection-swapping extractor wraps a validating
/// decorator: it carries the decorator's own rejection and renders it under
/// one fixed status code. The teapot status serves purely as a marker that
/// this path was taken.
pub struct WithRejectionValidRejection<E> {
    /// The decorator's rejection this one carries.
    pub inner: ValidRejection<E>,
}

impl<E> From<ValidRejection<E>> for WithRejectionValidRejection<E> {
    /// Wraps the decorator's rejection unchanged.
    fn from(inner: ValidRejection<E>) -> (r: Self) {
        Self { inner }
    }
}

impl<E> vstd::std_specs::convert::FromSpecImpl<ValidRejection<E>> for WithRejectionValidRejection<E> {
    open spec fn obeys_from_spec() -> bool {
        true
    }

    open spec fn from_spec(t: ValidRejection<E>) -> Self {
        WithRejectionValidRejection { inner: t }
    }
}

impl WithRejectionValidRejection<Response> {
    /// Renders the carried rejection under the marker status: a validation
    /// failure becomes its plain-text report, an inner-extractor failure
    /// keeps its own body with only the status replaced.
    pub fn into_response(self) -> (r: Response)
        ensures
            r.status == STATUS_IM_A_TEAPOT,
            self.inner matches ValidationRejection::Valid(rep) ==> (r.kind == BodyKind::Text
                && r.body@ == text_of(rep@)),
            self.inner matches ValidationRejection::Inner(e) ==> (r.kind == e.kind && r.body
                == e.body),
    {
        match self.inner {
            ValidationRejection::Valid(rep) => Response::text(STATUS_IM_A_TEAPOT, rep.render()),
            ValidationRejection::Inner(mut resp) => {
                resp.status = STATUS_IM_A_TEAPOT;
                resp
            },
        }
    }
}

} // verus!
