use axum_valid::garde::Garde;
use axum_valid::params::Parameters;
use axum_valid::params::ParametersPayload;
use axum_valid::params::V0Range;
use axum_valid::response::BodyKind;
use axum_valid::response::ErrorStatus;
use axum_valid::response::RejectionConfig;
use axum_valid::response::Response;
use axum_valid::response::STATUS_OK;
use axum_valid::response::STATUS_INTERNAL_SERVER_ERROR;
use axum_valid::validator::validate_again;
use axum_valid::validator::Valid;
use axum_valid::validator::Validate;
use axum_valid::validator::ValidEx;
use axum_valid::validify::Modified;
use axum_valid::validify::Validated;
use axum_valid::validify::Validified;
use axum_valid::validify::ValidifiedByRef;
use axum_valid::ValidationRejection;

fn default_config() -> RejectionConfig {
    RejectionConfig {
        status: ErrorStatus::BadRequest,
        into_json: false,
    }
}

#[test]
fn scenario_valid_input_passes_through() {
    // v0 = 5 in [5, 10], v1 of length 10 in [1, 10]: success, and the wrapped
    // value is exactly what the inner extractor produced.
    let input = Parameters::new(5, "0123456789".to_string());
    let r = Valid::<Parameters>::from_extracted::<Response>(Ok(input.clone()));
    let wrapper = r.expect("valid input accepted");
    assert_eq!(wrapper.into_inner(), input);
}

#[test]
fn scenario_revalidation_never_fails() {
    // Validation is a pure predicate: a value that one pass accepted passes
    // again.
    let input = Parameters::new(5, "0123456789".to_string());
    let wrapper = Valid::<Parameters>::from_extracted::<Response>(Ok(input)).expect("accepted");
    assert_eq!(validate_again(wrapper.get()), STATUS_OK);
    assert_eq!(validate_again(wrapper.get()), STATUS_OK);

    let rejected = Parameters::new(4, "x".to_string());
    assert_eq!(validate_again(&rejected), STATUS_INTERNAL_SERVER_ERROR);
}

#[test]
fn scenario_spec_inputs() {
    // v0 = 6 still lies in [5, 10]; only the length rule on v1 is violated,
    // so the failure lists exactly v1.
    let input = Parameters::new(6, "01234567890".to_string());
    let r = Valid::<Parameters>::from_extracted::<Response>(Ok(input));
    match r {
        Err(ValidationRejection::Valid(report)) => {
            assert_eq!(report.len(), 1);
            assert_eq!(report.get(0).field, "v1");
            assert_eq!(report.get(0).code, "length");
        }
        _ => panic!("expected a validation failure"),
    }
}

#[test]
fn scenario_failure_lists_all_violated_fields() {
    // Both rules violated: the failure response names both fields, not just
    // the first, under the configured status code.
    let input = Parameters::new(4, "01234567890".to_string());
    let r = Valid::<Parameters>::from_extracted::<Response>(Ok(input));
    let rejection = r.err().expect("invalid input rejected");
    assert!(rejection.is_valid_failure());
    let response = rejection.into_response(&default_config());
    assert_eq!(response.status, axum_valid::VALIDATION_ERROR_STATUS);
    assert_eq!(response.status, 400);
    assert_eq!(response.kind, BodyKind::Text);
    assert_eq!(response.body, "v0: range\nv1: length\n");
}

#[test]
fn scenario_inner_failure_passes_through() {
    // A malformed body never reaches validation: the inner extractor's native
    // rejection comes back unchanged, same status, same body.
    let native = Response::text(400, "Failed to parse the request body".to_string());
    let r = Valid::<Parameters>::from_extracted::<Response>(Err(native.clone()));
    let rejection = r.err().expect("inner failure rejected");
    assert!(rejection.is_inner_failure());
    assert!(!rejection.is_valid_failure());
    let response = rejection.into_response(&default_config());
    assert_eq!(response, native);
}

#[test]
fn scenario_context_changes_accepted_inputs() {
    // The allowed range for v0 comes from the supplied context: the same
    // input is accepted under one context and rejected under another, without
    // touching the data type.
    let input = Parameters::new(5, "x".to_string());

    let wide = V0Range { min: 0, max: 100 };
    let r = Garde::<Parameters>::from_extracted::<Response>(&wide, Ok(input.clone()));
    assert_eq!(r.expect("accepted under the wide range").into_inner(), input);

    let narrow = V0Range { min: 7, max: 10 };
    let r = Garde::<Parameters>::from_extracted::<Response>(&narrow, Ok(input.clone()));
    match r {
        Err(ValidationRejection::Valid(report)) => {
            assert_eq!(report.len(), 1);
            assert_eq!(report.get(0).field, "v0");
            assert_eq!(report.get(0).code, "range");
        }
        _ => panic!("expected a validation failure under the narrow range"),
    }

    let r = ValidEx::<Parameters>::from_extracted::<Response>(Ok(input.clone()), &wide);
    assert_eq!(r.expect("accepted under the wide range").into_inner(), input);
    let r = ValidEx::<Parameters>::from_extracted::<Response>(Ok(input), &narrow);
    assert!(r.is_err());
}

#[test]
fn config_selects_status_and_json_body() {
    let input = Parameters::new(5, "01234567890".to_string());
    let r = Valid::<Parameters>::from_extracted::<Response>(Ok(input));
    let rejection = r.err().expect("invalid input rejected");
    let config = RejectionConfig {
        status: ErrorStatus::UnprocessableEntity,
        into_json: true,
    };
    let response = rejection.into_response(&config);
    assert_eq!(response.status, 422);
    assert_eq!(response.kind, BodyKind::Json);
    assert_eq!(response.body, "[{\"field\":\"v1\",\"code\":\"length\"}]");
}

#[test]
fn validated_behaves_like_valid() {
    let input = Parameters::new(10, "ok".to_string());
    let r = Validated::<Parameters>::from_extracted::<Response>(Ok(input.clone()));
    assert_eq!(r.expect("accepted").into_inner(), input);

    let input = Parameters::new(11, "ok".to_string());
    let r = Validated::<Parameters>::from_extracted::<Response>(Ok(input));
    match r {
        Err(ValidationRejection::Valid(report)) => {
            assert_eq!(report.len(), 1);
            assert_eq!(report.get(0).field, "v0");
        }
        _ => panic!("expected a validation failure"),
    }
}

#[test]
fn modified_trims_and_keeps_inner_errors() {
    let input = Parameters::new(5, "  hello  ".to_string());
    let r = Modified::<Parameters>::from_extracted::<Response>(Ok(input));
    let wrapper = r.expect("modification cannot fail");
    assert_eq!(wrapper.get().v1, "hello");
    assert_eq!(wrapper.get().v0, 5);

    let native = Response::text(400, "bad".to_string());
    let r = Modified::<Parameters>::from_extracted::<Response>(Err(native.clone()));
    assert_eq!(r.err().expect("inner failure kept"), native);
}

#[test]
fn modified_into_response() {
    let wrapper = Modified(Parameters::new(5, "a  ".to_string()));
    let inner = wrapper.into_modified();
    println!("{:?}", inner);
    assert_eq!(inner.v1, "a");
}

#[test]
fn validified_constructs_modifies_and_validates() {
    let payload = ParametersPayload {
        v0: Some(5),
        v1: Some("  abc  ".to_string()),
    };
    let r = Validified::<Parameters>::from_extracted::<Response>(Ok(payload));
    let wrapper = r.expect("well-formed payload accepted");
    assert_eq!(wrapper.get().v0, 5);
    assert_eq!(wrapper.get().v1, "abc");
}

#[test]
fn validified_reports_missing_fields() {
    let payload = ParametersPayload { v0: None, v1: None };
    let r = Validified::<Parameters>::from_extracted::<Response>(Ok(payload));
    match r {
        Err(ValidationRejection::Valid(report)) => {
            assert_eq!(report.len(), 2);
            assert_eq!(report.get(0).field, "v0");
            assert_eq!(report.get(0).code, "required");
            assert_eq!(report.get(1).field, "v1");
            assert_eq!(report.get(1).code, "required");
        }
        _ => panic!("expected required-field violations"),
    }

    let payload = ParametersPayload {
        v0: None,
        v1: Some("x".to_string()),
    };
    let r = Validified::<Parameters>::from_extracted::<Response>(Ok(payload));
    match r {
        Err(ValidationRejection::Valid(report)) => {
            assert_eq!(report.len(), 1);
            assert_eq!(report.get(0).field, "v0");
        }
        _ => panic!("expected a required-field violation"),
    }
}

#[test]
fn validified_by_ref_modifies_then_validates() {
    // Trimming first can turn an acceptable-looking value into a violation:
    // eleven spaces trim to the empty string, which violates the length rule.
    let input = Parameters::new(5, "  trimmed  ".to_string());
    let r = ValidifiedByRef::<Parameters>::from_extracted::<Response>(Ok(input));
    let wrapper = r.expect("trimmed value accepted");
    assert_eq!(wrapper.get().v1, "trimmed");

    let input = Parameters::new(5, "           ".to_string());
    let r = ValidifiedByRef::<Parameters>::from_extracted::<Response>(Ok(input));
    match r {
        Err(ValidationRejection::Valid(report)) => {
            assert_eq!(report.len(), 1);
            assert_eq!(report.get(0).field, "v1");
            assert_eq!(report.get(0).code, "length");
        }
        _ => panic!("expected a validation failure after trimming"),
    }
}

#[test]
fn valid_parameters_fixture_passes_and_invalid_fails() {
    let p = Parameters::valid();
    assert!(p.validate().is_ok());
    let p = Parameters::invalid();
    let report = p.validate().err().expect("fixture violates a rule");
    assert_eq!(report.len(), 1);
    assert_eq!(report.get(0).field, "v1");
}
