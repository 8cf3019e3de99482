use scampi::data::{FnData, InvocData, ParamData};
use scampi::span::SpanEnv;

fn props(p: &ParamData) -> Vec<(String, bool)> {
    let mut v = p.properties().clone();
    v.sort();
    v
}

#[test]
fn new_param_has_no_properties() {
    let p = ParamData::new("*mut u8");
    assert_eq!(p.ty(), "*mut u8");
    assert!(p.properties().is_empty());
}

#[test]
fn property_is_set_and_overwritten() {
    let p = ParamData::new("*mut u8").with_property("is_mutable_ptr", true);
    assert_eq!(props(&p), vec![("is_mutable_ptr".to_string(), true)]);
    let p = p.with_property("is_mutable_ptr", false);
    assert_eq!(props(&p), vec![("is_mutable_ptr".to_string(), false)]);
    assert_eq!(p.ty(), "*mut u8");
}

#[test]
fn properties_under_different_names_commute() {
    let a = ParamData::new("i32").with_property("x", true).with_property("y", false);
    let b = ParamData::new("i32").with_property("y", false).with_property("x", true);
    assert_eq!(props(&a), props(&b));
    assert_eq!(props(&a).len(), 2);
}

#[test]
fn fn_data_cleans_its_span() {
    let env = SpanEnv { home_dir: Some("/home/u".to_string()), current_dir: Some("/w".to_string()) };
    let f = FnData::new(vec![ParamData::new("i32")], "src/ffi.rs:3:1: 3:9 (#0)", &env, "libc".to_string());
    assert_eq!(f.span(), "/w/src/ffi.rs:3:1: 3:9");
    assert_eq!(f.crate_name(), "libc");
    assert_eq!(f.parameters().len(), 1);
    assert_eq!(f.parameters()[0].ty(), "i32");
}

#[test]
fn invoc_data_keeps_its_fields() {
    let env = SpanEnv { home_dir: None, current_dir: None };
    let i = InvocData::new(
        "libc::malloc".to_string(),
        "src/a.rs:1:1: 1:5 (#0)",
        &env,
        Some("ws".to_string()),
        "app".to_string(),
    );
    assert_eq!(i.function(), "libc::malloc");
    assert_eq!(i.span(), "src/a.rs:1:1: 1:5");
    assert_eq!(i.workspace(), &Some("ws".to_string()));
    assert_eq!(i.crate_name(), "app");
}
