use axum_valid::extra::ValidWithRejectionRejection;
use axum_valid::extra::WithRejectionValidRejection;
use axum_valid::params::ParametersRejection;
use axum_valid::report::Report;
use axum_valid::response::BodyKind;
use axum_valid::response::Response;
use axum_valid::validator::ValidRejection;
use axum_valid::ValidationRejection;

#[test]
fn report_renders_plain_text_and_json() {
    let mut report = Report::new();
    report.add("v0", "range");
    report.add("v1", "length");
    assert_eq!(report.len(), 2);
    assert!(!report.is_empty());
    assert_eq!(report.render(), "v0: range\nv1: length\n");
    assert_eq!(
        report.to_json(),
        "[{\"field\":\"v0\",\"code\":\"range\"},{\"field\":\"v1\",\"code\":\"length\"}]"
    );
    assert_eq!(Report::new().render(), "");
    assert_eq!(Report::new().to_json(), "[]");
}

#[test]
fn report_json_escapes_quotes_and_backslashes() {
    let mut report = Report::new();
    report.add("a\"b", "c\\d");
    assert_eq!(report.to_json(), "[{\"field\":\"a\\\"b\",\"code\":\"c\\\\d\"}]");
}

#[test]
fn with_rejection_marks_both_paths_with_teapot_status() {
    let mut report = Report::new();
    report.add("v0", "range");
    let wrapped = WithRejectionValidRejection::from(ValidRejection::<Response>::Valid(report));
    let response = wrapped.into_response();
    assert_eq!(response.status, 418);
    assert_eq!(response.kind, BodyKind::Text);
    assert_eq!(response.body, "v0: range\n");

    let native = Response::text(403, "nope".to_string());
    let wrapped = WithRejectionValidRejection::from(ValidRejection::Inner(native));
    let response = wrapped.into_response();
    assert_eq!(response.status, 418);
    assert_eq!(response.body, "nope");
}

#[test]
fn with_rejection_swaps_the_status_for_conflict() {
    let wrapped = ValidWithRejectionRejection::from(ParametersRejection::Null);
    let response = wrapped.into_response();
    assert_eq!(response.status, 409);
    assert_eq!(response.body, "My-Data header is missing");

    let wrapped = ValidWithRejectionRejection::from(ParametersRejection::InvalidJson(
        "oops".to_string(),
    ));
    let response = wrapped.into_response();
    assert_eq!(response.status, 409);
    assert_eq!(response.body, "My-Data is not valid json string: oops");
}

#[test]
fn parameters_rejection_renders_forbidden_bodies() {
    let response = ParametersRejection::Null.into_response();
    assert_eq!(response.status, 403);
    assert_eq!(response.kind, BodyKind::Text);
    assert_eq!(response.body, "My-Data header is missing");

    let response =
        ParametersRejection::InvalidJson("expected value at line 1".to_string()).into_response();
    assert_eq!(response.status, 403);
    assert_eq!(
        response.body,
        "My-Data is not valid json string: expected value at line 1"
    );
}

#[test]
fn rejection_accessors_tell_the_variants_apart() {
    let mut report = Report::new();
    report.add("v0", "range");
    let rejection = ValidationRejection::<Report, String>::Valid(report);
    assert!(rejection.is_valid_failure());
    assert!(!rejection.is_inner_failure());
    assert!(rejection.as_valid().is_some());
    assert!(rejection.as_inner().is_none());

    let rejection = ValidationRejection::<Report, String>::Inner("boom".to_string());
    assert!(!rejection.is_valid_failure());
    assert!(rejection.is_inner_failure());
    assert!(rejection.as_valid().is_none());
    assert_eq!(rejection.as_inner(), Some(&"boom".to_string()));

    let report_again: ValidationRejection<Report, String> = {
        let mut report = Report::new();
        report.add("v1", "length");
        ValidationRejection::from(report)
    };
    assert!(report_again.is_valid_failure());
    assert_eq!(report_again.message(), "v1: length\n");
}
