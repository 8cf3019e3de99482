use scampi::call::{Abi, CallSite, Callee, CalleeType, ExprShape, FnSignature, ParamInfo, VisitPlan};
use scampi::inventory::{mongo_config, output_location, should_analyze, visit_plan, Analyzer, CallOutcome, MongoConfig};
use scampi::span::SpanEnv;

fn env() -> SpanEnv {
    SpanEnv { home_dir: Some("/home/u".to_string()), current_dir: Some("/w".to_string()) }
}

fn call(name: &str, abi: Abi, params: &[&str], def_span: &str, span: &str) -> CallSite {
    CallSite {
        in_fn_body: true,
        callee: Some(Callee {
            name: name.to_string(),
            krate: "libc".to_string(),
            span: def_span.to_string(),
            ty: CalleeType::FnDef(FnSignature {
                abi,
                safe: false,
                params: params.iter().map(|p| ParamInfo { ty: p.to_string(), is_mutable_ptr: p.starts_with("*mut") }).collect(),
            }),
        }),
        span: span.to_string(),
    }
}

fn analyzer() -> Analyzer {
    Analyzer::new(Some("ws".to_string()), "app".to_string(), env())
}

#[test]
fn foreign_call_is_recorded() {
    let mut a = analyzer();
    let out = a.on_call(&call("libc::malloc", Abi::C { unwind: false }, &["usize"], "/home/u/libc/src/m.rs:1:1: 1:2 (#0)", "src/main.rs:4:5: 4:17 (#0)"));
    assert_eq!(out, CallOutcome::Recorded);
    assert_eq!(a.functions().len(), 1);
    let (name, data) = &a.functions()[0];
    assert_eq!(name, "libc::malloc");
    assert_eq!(data.span(), "/home/u/libc/src/m.rs:1:1: 1:2");
    assert_eq!(data.crate_name(), "libc");
    assert_eq!(data.parameters()[0].ty(), "usize");
    assert_eq!(a.invocations().len(), 1);
    let inv = &a.invocations()[0];
    assert_eq!(inv.function(), "libc::malloc");
    assert_eq!(inv.span(), "/w/src/main.rs:4:5: 4:17");
    assert_eq!(inv.workspace(), &Some("ws".to_string()));
    assert_eq!(inv.crate_name(), "app");
}

#[test]
fn first_record_of_a_function_is_kept() {
    let mut a = analyzer();
    a.on_call(&call("libc::free", Abi::C { unwind: true }, &["*mut u8"], "/home/u/a.rs:1:1 (#0)", "/home/u/x.rs:1:1 (#0)"));
    a.on_call(&call("libc::free", Abi::C { unwind: false }, &["*mut i8", "i32"], "/home/u/b.rs:9:9 (#0)", "/home/u/y.rs:2:2 (#0)"));
    assert_eq!(a.functions().len(), 1);
    assert!(a.knows_function("libc::free"));
    assert!(!a.knows_function("libc::malloc"));
    assert_eq!(a.functions()[0].1.span(), "/home/u/a.rs:1:1");
    assert_eq!(a.functions()[0].1.parameters().len(), 1);
    assert_eq!(a.invocations().len(), 2);
    assert_eq!(a.invocations()[1].span(), "/home/u/y.rs:2:2");
}

#[test]
fn rust_calls_are_not_recorded() {
    let mut a = analyzer();
    assert_eq!(a.on_call(&call("std::mem::drop", Abi::Rust, &[], "x (#0)", "y (#0)")), CallOutcome::NotForeign);
    assert_eq!(a.on_call(&call("f", Abi::Other, &[], "x (#0)", "y (#0)")), CallOutcome::NotForeign);
    assert!(a.functions().is_empty());
    assert!(a.invocations().is_empty());
}

#[test]
fn unchecked_calls_are_reported() {
    let mut a = analyzer();
    let mut outside = call("libc::abs", Abi::C { unwind: false }, &[], "x", "y");
    outside.in_fn_body = false;
    assert_eq!(a.on_call(&outside), CallOutcome::Ignored);
    let mut no_callee = call("libc::abs", Abi::C { unwind: false }, &[], "x", "y");
    no_callee.callee = None;
    assert_eq!(a.on_call(&no_callee), CallOutcome::Ignored);
    let mut untyped = call("libc::abs", Abi::C { unwind: false }, &[], "x", "y");
    untyped.callee.as_mut().unwrap().ty = CalleeType::Untyped;
    assert_eq!(a.on_call(&untyped), CallOutcome::Untyped);
    let mut not_fn = call("libc::abs", Abi::C { unwind: false }, &[], "x", "y");
    not_fn.callee.as_mut().unwrap().ty = CalleeType::NotFnDef;
    assert_eq!(a.on_call(&not_fn), CallOutcome::NotFnDef);
    assert!(a.invocations().is_empty());
    assert_eq!(a.workspace(), &Some("ws".to_string()));
    assert_eq!(a.crate_name(), "app");
}

#[test]
fn inventory_skip_list() {
    for name in ["tokio", "time", "rustix", "parquet"] {
        assert!(!should_analyze(name));
    }
    assert!(should_analyze("cc"));
    assert!(should_analyze("tokio-util"));
}

#[test]
fn mongo_needs_both_settings() {
    assert_eq!(
        mongo_config(Some("mongodb://h".to_string()), Some("db".to_string())),
        Some(MongoConfig { uri: "mongodb://h".to_string(), db: "db".to_string() })
    );
    assert_eq!(mongo_config(Some("mongodb://h".to_string()), None), None);
    assert_eq!(mongo_config(None, Some("db".to_string())), None);
}

#[test]
fn output_files_are_laid_out_per_crate() {
    let loc = output_location("/out", Some("ws"), "app");
    assert_eq!(loc.dir, "/out/ws/app");
    assert_eq!(loc.functions_file, "/out/ws/app/functions.json");
    assert_eq!(loc.invocations_file, "/out/ws/app/invocations.json");
    let bare = output_location("out/", None, "app");
    assert_eq!(bare.dir, "out/app");
}

#[test]
fn inventory_walk_plan() {
    assert_eq!(visit_plan(ExprShape::Call), VisitPlan::HandleCallThenWalk);
    assert_eq!(visit_plan(ExprShape::Loop), VisitPlan::WalkChildren);
    assert_eq!(visit_plan(ExprShape::Other), VisitPlan::WalkChildren);
}

#[test]
fn listed_functions_are_the_invoked_ones() {
    let mut a = analyzer();
    a.on_call(&call("libc::free", Abi::C { unwind: false }, &[], "/home/u/a (#0)", "/home/u/b (#0)"));
    a.on_call(&call("std::drop", Abi::Rust, &[], "/home/u/a (#0)", "/home/u/b (#0)"));
    a.on_call(&call("libc::abs", Abi::C { unwind: false }, &[], "/home/u/a (#0)", "/home/u/c (#0)"));
    a.on_call(&call("libc::free", Abi::C { unwind: false }, &[], "/home/u/a (#0)", "/home/u/d (#0)"));
    let mut listed: Vec<String> = a.functions().iter().map(|(n, _)| n.clone()).collect();
    let mut invoked: Vec<String> = a.invocations().iter().map(|i| i.function().to_string()).collect();
    invoked.sort();
    invoked.dedup();
    listed.sort();
    assert_eq!(listed, invoked);
    assert!(a.functions().len() <= a.invocations().len());
}
