use scampi::call::{Abi, CallSite, Callee, CalleeType, ExprShape, FnSignature, ParamInfo, VisitPlan};
use scampi::graph::{
    call_edge_query, register_fn_queries, should_analyze, visit_plan, Analyzer, CallOutcome, FnItem, FunSig,
    GraphQuery, QueryValue,
};
use scampi::span::SpanEnv;

fn env() -> SpanEnv {
    SpanEnv { home_dir: None, current_dir: None }
}

fn item(name: &str) -> FnItem {
    FnItem { name: name.to_string(), span: "src/lib.rs:1:1: 2:2 (#0)".to_string(), abi: Abi::Rust, safe: true, params: vec![param("i32", false)] }
}

fn site(callee: &str, abi: Abi) -> CallSite {
    CallSite {
        in_fn_body: true,
        callee: Some(Callee {
            name: callee.to_string(),
            krate: "libc".to_string(),
            span: "/libc/src/a.rs:7:1: 7:9 (#0)".to_string(),
            ty: CalleeType::FnDef(FnSignature { abi, safe: false, params: vec![param("*mut u8", true)] }),
        }),
        span: "src/lib.rs:5:9: 5:20 (#0)".to_string(),
    }
}

fn param(ty: &str, is_mutable_ptr: bool) -> ParamInfo {
    ParamInfo { ty: ty.to_string(), is_mutable_ptr }
}

fn accepts(krate: &str, name: &str, position: i64, ty: &str, is_mutable_ptr: bool) -> GraphQuery {
    GraphQuery {
        text: "MATCH (f:Fn {name: $name, crate: $crate}) MERGE (p:Param {function: $name, crate: $crate, position: $position}) SET p.ty = $ty, p.is_mutable_ptr = $is_mutable_ptr MERGE (f)-[r:ACCEPTS]->(p) RETURN r".to_string(),
        params: vec![
            ("name".to_string(), text(name)),
            ("crate".to_string(), text(krate)),
            ("position".to_string(), QueryValue::Integer(position)),
            ("ty".to_string(), text(ty)),
            ("is_mutable_ptr".to_string(), QueryValue::Flag(is_mutable_ptr)),
        ],
    }
}

fn text(v: &str) -> QueryValue {
    QueryValue::Text(v.to_string())
}

#[test]
fn function_node_query_is_labelled_by_abi() {
    let sig = FunSig {
        krate: "app".to_string(),
        name: "app::f".to_string(),
        span: "src/lib.rs:1:1: 2:2 (#0)".to_string(),
        abi: Abi::C { unwind: false },
        safe: false,
        params: vec![param("i32", false), param("*mut u8", true)],
    };
    let queries = register_fn_queries(&sig, &env());
    let q = queries.node.clone();
    assert_eq!(
        q.text,
        "MERGE (f:Fn:C {name: $name, crate: $crate}) SET f.safe = $safe, f.span = $span, f.params = $params RETURN f"
    );
    assert_eq!(
        q.params,
        vec![
            ("name".to_string(), text("app::f")),
            ("crate".to_string(), text("app")),
            ("safe".to_string(), QueryValue::Flag(false)),
            ("span".to_string(), text("src/lib.rs:1:1: 2:2")),
            ("params".to_string(), QueryValue::TextList(vec!["i32".to_string(), "*mut u8".to_string()])),
        ]
    );
    assert_eq!(
        queries.accepts,
        vec![accepts("app", "app::f", 0, "i32", false), accepts("app", "app::f", 1, "*mut u8", true)]
    );
    let other = register_fn_queries(&FunSig { abi: Abi::Other, ..sig.clone() }, &env());
    assert!(other.node.text.starts_with("MERGE (f:Fn:Other {"));
    let rust = register_fn_queries(&FunSig { abi: Abi::Rust, ..sig.clone() }, &env());
    assert!(rust.node.text.starts_with("MERGE (f:Fn:Rust {"));
    assert_eq!(register_fn_queries(&sig.clone(), &env()), queries);
    let none = register_fn_queries(&FunSig { params: vec![], ..sig }, &env());
    assert!(none.accepts.is_empty());
}

#[test]
fn call_edge_query_carries_loop_level() {
    let q = call_edge_query("a", "b", "x.rs:1:1 (#0)", 3, &env());
    assert_eq!(
        q.text,
        "MATCH (a:Fn), (b:Fn) WHERE a.name = $caller AND b.name = $callee MERGE (a)-[r:CALLS { span: $span, loop_level: $loop_level }]->(b) RETURN r"
    );
    assert_eq!(
        q.params,
        vec![
            ("caller".to_string(), text("a")),
            ("callee".to_string(), text("b")),
            ("span".to_string(), text("x.rs:1:1")),
            ("loop_level".to_string(), QueryValue::Integer(3)),
        ]
    );
}

#[test]
fn entering_fn_registers_it_under_this_crate() {
    let mut a = Analyzer::new("app".to_string(), env());
    let q = a.enter_fn(&item("app::main"));
    assert!(q.node.text.starts_with("MERGE (f:Fn:Rust {"));
    assert_eq!(q.node.params[1], ("crate".to_string(), text("app")));
    assert_eq!(q.node.params[0], ("name".to_string(), text("app::main")));
    assert_eq!(q.accepts, vec![accepts("app", "app::main", 0, "i32", false)]);
}

#[test]
fn call_outside_functions_has_no_caller() {
    let a = Analyzer::new("app".to_string(), env());
    assert_eq!(a.on_call(&site("libc::free", Abi::C { unwind: false })), CallOutcome::NoCaller("/libc/src/a.rs:7:1: 7:9 (#0)".to_string()));
}

#[test]
fn call_edge_comes_from_innermost_function() {
    let mut a = Analyzer::new("app".to_string(), env());
    assert!(!a.in_function());
    a.enter_fn(&item("app::outer"));
    assert!(a.in_function());
    a.enter_fn(&item("app::inner"));
    a.enter_loop();
    a.enter_loop();
    assert_eq!(a.loop_level(), 2);
    match a.on_call(&site("libc::free", Abi::Rust)) {
        CallOutcome::Register { function, relation } => {
            assert!(function.node.text.starts_with("MERGE (f:Fn:Rust {"));
            assert_eq!(function.node.params[1], ("crate".to_string(), text("libc")));
            assert_eq!(function.accepts, vec![accepts("libc", "libc::free", 0, "*mut u8", true)]);
            assert_eq!(
                relation,
                GraphQuery {
                    text: "MATCH (a:Fn), (b:Fn) WHERE a.name = $caller AND b.name = $callee MERGE (a)-[r:CALLS { span: $span, loop_level: $loop_level }]->(b) RETURN r".to_string(),
                    params: vec![
                        ("caller".to_string(), text("app::inner")),
                        ("callee".to_string(), text("libc::free")),
                        ("span".to_string(), text("src/lib.rs:5:9: 5:20")),
                        ("loop_level".to_string(), QueryValue::Integer(2)),
                    ],
                }
            );
        }
        other => panic!("unexpected outcome {:?}", other),
    }
    a.exit_loop();
    a.exit_loop();
    a.exit_fn();
    match a.on_call(&site("libc::free", Abi::Rust)) {
        CallOutcome::Register { relation, .. } => {
            assert_eq!(relation.params[0], ("caller".to_string(), text("app::outer")));
            assert_eq!(relation.params[3], ("loop_level".to_string(), QueryValue::Integer(0)));
        }
        other => panic!("unexpected outcome {:?}", other),
    }
    a.exit_fn();
    a.exit_fn();
    assert!(matches!(a.on_call(&site("f", Abi::Rust)), CallOutcome::NoCaller(_)));
}

#[test]
fn unchecked_calls_make_no_queries() {
    let mut a = Analyzer::new("app".to_string(), env());
    a.enter_fn(&item("app::main"));
    let mut s = site("f", Abi::Rust);
    s.in_fn_body = false;
    assert_eq!(a.on_call(&s), CallOutcome::Ignored);
    let mut s = site("f", Abi::Rust);
    s.callee.as_mut().unwrap().ty = CalleeType::Untyped;
    assert_eq!(a.on_call(&s), CallOutcome::Untyped);
    let mut s = site("f", Abi::Rust);
    s.callee.as_mut().unwrap().ty = CalleeType::NotFnDef;
    assert_eq!(a.on_call(&s), CallOutcome::NotFnDef);
}

#[test]
fn graph_skip_list() {
    for name in ["tokio", "time", "rustix", "parquet", "build_script_build", "find_msvc_tools", "shlex", "cc"] {
        assert!(!should_analyze(name));
    }
    assert!(should_analyze("serde"));
}

#[test]
fn graph_walk_plan() {
    assert_eq!(visit_plan(ExprShape::Call), VisitPlan::HandleCallThenWalk);
    assert_eq!(visit_plan(ExprShape::Loop), VisitPlan::WalkInLoop);
    assert_eq!(visit_plan(ExprShape::Other), VisitPlan::WalkChildren);
}
