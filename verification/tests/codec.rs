use axum_valid::params::InvalidHeader;
use axum_valid::params::Parameters;

#[test]
fn parameter_is_header() {
    let parameter = Parameters::new(123456, "111111".to_string());
    let encoded = parameter.encode();
    assert_eq!(parameter, Parameters::decode(encoded.as_str()).expect("decodes"));
}

#[test]
fn test_parameter_is_header() {
    let parameter = Parameters::new(123456, "111111".to_string());
    let encoded = parameter.encode();
    assert_eq!(parameter, Parameters::decode(encoded.as_str()).expect("decodes"));
}

#[test]
fn encode_exact_values() {
    assert_eq!(Parameters::new(5, "abc".to_string()).encode(), "5,abc");
    assert_eq!(Parameters::new(-12, "x y".to_string()).encode(), "-12,x y");
    assert_eq!(Parameters::new(0, "".to_string()).encode(), "0,");
    assert_eq!(
        Parameters::new(i32::MIN, "m".to_string()).encode(),
        "-2147483648,m"
    );
    assert_eq!(
        Parameters::new(i32::MAX, "m".to_string()).encode(),
        "2147483647,m"
    );
}

#[test]
fn decode_exact_values() {
    let p = Parameters::decode("7,hello").expect("decodes");
    assert_eq!(p.v0, 7);
    assert_eq!(p.v1, "hello");

    let p = Parameters::decode("+7,hello").expect("sign accepted");
    assert_eq!(p.v0, 7);

    let p = Parameters::decode("-2147483648,a").expect("smallest value");
    assert_eq!(p.v0, i32::MIN);

    let p = Parameters::decode("10,").expect("empty tail");
    assert_eq!(p.v1, "");
}

#[test]
fn decode_rejects_malformed_values() {
    assert_eq!(Parameters::decode("no comma here"), Err(InvalidHeader));
    assert_eq!(Parameters::decode("1,2,3"), Err(InvalidHeader));
    assert_eq!(Parameters::decode("x,y"), Err(InvalidHeader));
    assert_eq!(Parameters::decode(",tail"), Err(InvalidHeader));
    assert_eq!(Parameters::decode("-,tail"), Err(InvalidHeader));
    assert_eq!(Parameters::decode("2147483648,a"), Err(InvalidHeader));
    assert_eq!(Parameters::decode("-2147483649,a"), Err(InvalidHeader));
    assert_eq!(Parameters::decode(""), Err(InvalidHeader));
}

#[test]
fn header_name_is_fixed() {
    assert_eq!(Parameters::name(), "axum-valid-parameters");
}
