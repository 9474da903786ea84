use axum_valid::garde::GardeRejection;
use axum_valid::report::Report;
use axum_valid::validator::ValidRejection;
use axum_valid::validify::ValidifyRejection;

const TEST: &str = "test";
const GARDE: &str = "garde";
const VALIDIFY: &str = "validify";

#[test]
fn validator_display_error() {
    // ValidRejection::Valid rendering
    let mut ve = Report::new();
    ve.add(TEST, TEST);
    let vr = ValidRejection::<String>::Valid(ve.clone());
    assert_eq!(vr.message(), ve.render());

    // ValidRejection::Inner rendering
    let inner = String::from(TEST);
    let vr = ValidRejection::<String>::Inner(inner.clone());
    assert_eq!(inner, vr.message());

    // ValidRejection::Valid carries the validation report
    let mut ve = Report::new();
    ve.add(TEST, TEST);
    let vr = ValidRejection::<std::io::Error>::Valid(ve.clone());
    assert!(matches!(vr.as_valid(), Some(source) if source.len() == 1));

    // ValidRejection::Inner carries the inner error
    let vr = ValidRejection::<std::io::Error>::Inner(std::io::Error::new(
        std::io::ErrorKind::Other,
        TEST,
    ));
    assert!(matches!(vr.as_inner(), Some(source) if source.kind() == std::io::ErrorKind::Other));
}

#[test]
fn garde_display_error() {
    // GardeRejection::Valid rendering
    let mut report = Report::new();
    report.add("", GARDE);
    let s = report.render();
    let vr = GardeRejection::<String>::Valid(report);
    assert_eq!(vr.message(), s);

    // GardeRejection::Inner rendering
    let inner = String::from(GARDE);
    let vr = GardeRejection::<String>::Inner(inner.clone());
    assert_eq!(inner, vr.message());

    // GardeRejection::Valid carries the validation report
    let mut report = Report::new();
    report.add("", GARDE);
    let vr = GardeRejection::<std::io::Error>::Valid(report);
    assert!(matches!(vr.as_valid(), Some(source) if source.len() == 1));

    // GardeRejection::Inner carries the inner error
    let vr = GardeRejection::<std::io::Error>::Inner(std::io::Error::new(
        std::io::ErrorKind::Other,
        GARDE,
    ));
    assert!(matches!(vr.as_inner(), Some(source) if source.kind() == std::io::ErrorKind::Other));
}

#[test]
fn validify_display_error() {
    // ValidifyRejection::Valid rendering
    let mut report = Report::new();
    report.add("", VALIDIFY);
    let s = report.render();
    let vr = ValidifyRejection::<String>::Valid(report);
    assert_eq!(vr.message(), s);

    // ValidifyRejection::Inner rendering
    let inner = String::from(VALIDIFY);
    let vr = ValidifyRejection::<String>::Inner(inner.clone());
    assert_eq!(inner, vr.message());

    // ValidifyRejection::Valid carries the validation report
    let mut report = Report::new();
    report.add("", VALIDIFY);
    let vr = ValidifyRejection::<std::io::Error>::Valid(report);
    assert!(matches!(vr.as_valid(), Some(source) if source.len() == 1));

    // ValidifyRejection::Inner carries the inner error
    let vr = ValidifyRejection::<std::io::Error>::Inner(std::io::Error::new(
        std::io::ErrorKind::Other,
        VALIDIFY,
    ));
    assert!(matches!(vr.as_inner(), Some(source) if source.kind() == std::io::ErrorKind::Other));
}
