use axum_valid::garde::Garde;
use axum_valid::params::Parameters;
use axum_valid::params::V0Range;
use axum_valid::validator::Valid;
use axum_valid::validator::ValidateArgs;
use axum_valid::validator::ValidEx;
use axum_valid::validify::Modified;
use axum_valid::validify::Validated;
use axum_valid::validify::Validified;
use axum_valid::validify::ValidifiedByRef;

const TEST: &str = "test";
const GARDE: &str = "garde";
const VALIDIFY: &str = "validify";

#[test]
fn valid_deref_deref_mut_into_inner() {
    let mut inner = String::from(TEST);
    let mut v = Valid(inner.clone());
    assert_eq!(&inner, v.get());
    inner.push_str(TEST);
    v.0.push_str(TEST);
    assert_eq!(&inner, v.get());
    println!("{}", v.0);
    assert_eq!(inner, v.into_inner());
}

#[test]
fn valid_ex_deref_deref_mut_into_inner_arguments() {
    let mut inner = String::from(TEST);
    let mut v = ValidEx(inner.clone());
    assert_eq!(&inner, v.get());
    inner.push_str(TEST);
    v.0.push_str(TEST);
    assert_eq!(&inner, v.get());
    assert_eq!(inner, v.into_inner());

    let v0 = 12;
    let data = Parameters::new(v0, String::from(TEST));
    let args = V0Range { min: 0, max: v0 + 1 };
    let ve = ValidEx(data);
    ve.get().validate_with_args(&args).expect("invalid");
    println!("{:?}", ve.get());
    assert_eq!(ve.0.v0, v0);
}

#[test]
fn garde_deref_deref_mut_into_inner() {
    let mut inner = String::from(GARDE);
    let mut v = Garde(inner.clone());
    assert_eq!(&inner, v.get());
    inner.push_str(GARDE);
    v.0.push_str(GARDE);
    assert_eq!(&inner, v.get());
    println!("{}", v.0);
    assert_eq!(inner, v.into_inner());
}

#[test]
fn validify_deref_deref_mut_into_inner() {
    let mut inner = String::from(VALIDIFY);
    let mut v = Validated(inner.clone());
    assert_eq!(&inner, v.get());
    inner.push_str(VALIDIFY);
    v.0.push_str(VALIDIFY);
    assert_eq!(&inner, v.get());
    println!("{}", v.0);
    assert_eq!(inner, v.into_inner());

    let mut inner = String::from(VALIDIFY);
    let mut v = Modified(inner.clone());
    assert_eq!(&inner, v.get());
    inner.push_str(VALIDIFY);
    v.0.push_str(VALIDIFY);
    assert_eq!(&inner, v.get());
    println!("{}", v.0);
    assert_eq!(inner, v.into_inner());

    let mut inner = String::from(VALIDIFY);
    let mut v = Validified(inner.clone());
    assert_eq!(&inner, v.get());
    inner.push_str(VALIDIFY);
    v.0.push_str(VALIDIFY);
    assert_eq!(&inner, v.get());
    println!("{}", v.0);
    assert_eq!(inner, v.into_inner());

    let mut inner = String::from(VALIDIFY);
    let mut v = ValidifiedByRef(inner.clone());
    assert_eq!(&inner, v.get());
    inner.push_str(VALIDIFY);
    v.0.push_str(VALIDIFY);
    assert_eq!(&inner, v.get());
    println!("{}", v.0);
    assert_eq!(inner, v.into_inner());
}
