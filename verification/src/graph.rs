use vstd::prelude::*;

use crate::call::{ExprShape, VisitPlan, param_texts, param_type_texts, ParamInfo, check_call, call_check_spec, typed_callee, typed_signature, Abi, CallCheck, CallSite, CalleeType};
use crate::args::str_equal;
use crate::span::{can_clean, clean_span, clean_span_spec, SpanEnv, SpanEnvView};

verus! {

/// A value bound to a parameter of a graph query.
#[derive(Debug, Clone, PartialEq)]
pub enum QueryValue {
    Text(String),
    Flag(bool),
    TextList(Vec<String>),
    Integer(i64),
}

/// The plain content of a `QueryValue`.
pub enum QueryValueView {
    Text(Seq<char>),
    Flag(bool),
    TextList(Seq<Seq<char>>),
    Integer(int),
}

impl View for QueryValue {
    type V = QueryValueView;

    open spec fn view(&self) -> QueryValueView {
        match self {
            QueryValue::Text(s) => QueryValueView::Text(s@),
            QueryValue::Flag(b) => QueryValueView::Flag(*b),
            QueryValue::TextList(l) => QueryValueView::TextList(l.deep_view()),
            QueryValue::Integer(i) => QueryValueView::Integer(*i as int),
        }
    }
}

/// A Cypher query with its named parameters, in the order they are bound.
#[derive(Debug, Clone, PartialEq)]
pub struct GraphQuery {
    pub text: String,
    pub params: Vec<(String, QueryValue)>,
}

/// The plain content of a `GraphQuery`.
pub struct GraphQueryView {
    pub text: Seq<char>,
    pub params: Seq<(Seq<char>, QueryValueView)>,
}

impl View for GraphQuery {
    type V = GraphQueryView;

    open spec fn view(&self) -> GraphQueryView {
        GraphQueryView {
            text: self.text@,
            params: self.params@.map_values(|p: (String, QueryValue)| (p.0@, p.1@)),
        }
    }
}

/// A function as it is stored as a node of the graph.
#[derive(Debug, Clone)]
pub struct FunSig {
    /// The crate that defines the function.
    pub krate: String,
    /// The path of the function.
    pub name: String,
    /// The debug text of the span where the function is defined.
    pub span: String,
    pub abi: Abi,
    pub safe: bool,
    /// The parameters, in order.
    pub params: Vec<ParamInfo>,
}

/// The queries that store a function: its node, then for each parameter,
/// in order, a parameter node linked from the function by an `ACCEPTS` edge.
#[derive(Debug, Clone, PartialEq)]
pub struct FunctionQueries {
    pub node: GraphQuery,
    pub accepts: Vec<GraphQuery>,
}

/// The plain content of a `FunctionQueries`.
pub struct FunctionQueriesView {
    pub node: GraphQueryView,
    pub accepts: Seq<GraphQueryView>,
}

impl View for FunctionQueries {
    type V = FunctionQueriesView;

    open spec fn view(&self) -> FunctionQueriesView {
        FunctionQueriesView {
            node: self.node@,
            accepts: self.accepts@.map_values(|q: GraphQuery| q@),
        }
    }
}

/// The node label that tells calling conventions apart.
pub open spec fn abi_label(abi: Abi) -> Seq<char> {
    match abi {
        Abi::Rust => "Rust"@,
        Abi::C { .. } => "C"@,
        Abi::Other => "Other"@,
    }
}

/// The text of the query that merges a function node. A function is one
/// node per name and crate (under its calling-convention label); its other
/// properties are set, so a later registration with other texts updates
/// that node rather than adding one.
pub open spec fn function_query_text(abi: Abi) -> Seq<char> {
    "MERGE (f:Fn:"@ + abi_label(abi)
        + " {name: $name, crate: $crate}) SET f.safe = $safe, f.span = $span, f.params = $params RETURN f"@
}

/// The text of the query that merges a call edge between two function nodes.
pub open spec fn call_query_text() -> Seq<char> {
    "MATCH (a:Fn), (b:Fn) WHERE a.name = $caller AND b.name = $callee MERGE (a)-[r:CALLS { span: $span, loop_level: $loop_level }]->(b) RETURN r"@
}

/// The query that merges the node of a function.
pub open spec fn function_query(
    krate: Seq<char>,
    name: Seq<char>,
    span: Seq<char>,
    abi: Abi,
    safe: bool,
    params: Seq<Seq<char>>,
    env: SpanEnvView,
) -> GraphQueryView {
    GraphQueryView {
        text: function_query_text(abi),
        params: seq![
            ("name"@, QueryValueView::Text(name)),
            ("crate"@, QueryValueView::Text(krate)),
            ("safe"@, QueryValueView::Flag(safe)),
            ("span"@, QueryValueView::Text(clean_span_spec(span, env))),
            ("params"@, QueryValueView::TextList(params)),
        ],
    }
}

/// The text of the query that merges a parameter node and the `ACCEPTS`
/// edge to it from its function's node. A parameter is one node per
/// function, crate and position; its type text and pointer flag are set.
pub open spec fn accepts_query_text() -> Seq<char> {
    "MATCH (f:Fn {name: $name, crate: $crate}) MERGE (p:Param {function: $name, crate: $crate, position: $position}) SET p.ty = $ty, p.is_mutable_ptr = $is_mutable_ptr MERGE (f)-[r:ACCEPTS]->(p) RETURN r"@
}

/// The query that merges the parameter at `position` of a function, and
/// the edge from the function to it.
pub open spec fn accepts_query(
    krate: Seq<char>,
    name: Seq<char>,
    position: int,
    ty: Seq<char>,
    is_mutable_ptr: bool,
) -> GraphQueryView {
    GraphQueryView {
        text: accepts_query_text(),
        params: seq![
            ("name"@, QueryValueView::Text(name)),
            ("crate"@, QueryValueView::Text(krate)),
            ("position"@, QueryValueView::Integer(position)),
            ("ty"@, QueryValueView::Text(ty)),
            ("is_mutable_ptr"@, QueryValueView::Flag(is_mutable_ptr)),
        ],
    }
}

/// All the queries that store a function: its node, and one parameter
/// node with its `ACCEPTS` edge per parameter.
pub open spec fn function_queries(
    krate: Seq<char>,
    name: Seq<char>,
    span: Seq<char>,
    abi: Abi,
    safe: bool,
    params: Seq<ParamInfo>,
    env: SpanEnvView,
) -> FunctionQueriesView {
    FunctionQueriesView {
        node: function_query(krate, name, span, abi, safe, param_texts(params), env),
        accepts: Seq::new(
            params.len(),
            |i: int| accepts_query(krate, name, i, params[i].ty@, params[i].is_mutable_ptr),
        ),
    }
}

/// The query that merges the call edge from `caller` to `callee`.
pub open spec fn call_query(
    caller: Seq<char>,
    callee: Seq<char>,
    span: Seq<char>,
    loop_level: int,
    env: SpanEnvView,
) -> GraphQueryView {
    GraphQueryView {
        text: call_query_text(),
        params: seq![
            ("caller"@, QueryValueView::Text(caller)),
            ("callee"@, QueryValueView::Text(callee)),
            ("span"@, QueryValueView::Text(clean_span_spec(span, env))),
            ("loop_level"@, QueryValueView::Integer(loop_level)),
        ],
    }
}

/// The query that stores a function as a node, labelled by its calling convention.
fn function_node_query(
    krate: &str,
    name: &str,
    span: &str,
    abi: Abi,
    safe: bool,
    params: &Vec<ParamInfo>,
    env: &SpanEnv,
) -> (res: GraphQuery)
    requires
        can_clean(span@, env@),
    ensures
        res@ == function_query(krate@, name@, span@, abi, safe, param_texts(params@), env@),
{
    let label = match abi {
        Abi::Rust => "Rust",
        Abi::C { .. } => "C",
        Abi::Other => "Other",
    };
    let mut text = "MERGE (f:Fn:".to_owned();
    text.append(label);
    text.append(" {name: $name, crate: $crate}) SET f.safe = $safe, f.span = $span, f.params = $params RETURN f");
    let mut qparams: Vec<(String, QueryValue)> = Vec::new();
    qparams.push(("name".to_owned(), QueryValue::Text(name.to_owned())));
    qparams.push(("crate".to_owned(), QueryValue::Text(krate.to_owned())));
    qparams.push(("safe".to_owned(), QueryValue::Flag(safe)));
    qparams.push(("span".to_owned(), QueryValue::Text(clean_span(span, env))));
    qparams.push(("params".to_owned(), QueryValue::TextList(param_type_texts(params))));
    let res = GraphQuery { text, params: qparams };
    assert(res@.params =~= function_query(
        krate@,
        name@,
        span@,
        abi,
        safe,
        param_texts(params@),
        env@,
    ).params);
    res
}

/// The query that stores the parameter at `position` and its `ACCEPTS` edge.
fn accepts_edge_query(krate: &str, name: &str, position: i64, param: &ParamInfo) -> (res: GraphQuery)
    ensures
        res@ == accepts_query(krate@, name@, position as int, param.ty@, param.is_mutable_ptr),
{
    let text = "MATCH (f:Fn {name: $name, crate: $crate}) MERGE (p:Param {function: $name, crate: $crate, position: $position}) SET p.ty = $ty, p.is_mutable_ptr = $is_mutable_ptr MERGE (f)-[r:ACCEPTS]->(p) RETURN r".to_owned();
    let mut qparams: Vec<(String, QueryValue)> = Vec::new();
    qparams.push(("name".to_owned(), QueryValue::Text(name.to_owned())));
    qparams.push(("crate".to_owned(), QueryValue::Text(krate.to_owned())));
    qparams.push(("position".to_owned(), QueryValue::Integer(position)));
    qparams.push(("ty".to_owned(), QueryValue::Text(param.ty.clone())));
    qparams.push(("is_mutable_ptr".to_owned(), QueryValue::Flag(param.is_mutable_ptr)));
    let res = GraphQuery { text, params: qparams };
    assert(res@.params =~= accepts_query(
        krate@,
        name@,
        position as int,
        param.ty@,
        param.is_mutable_ptr,
    ).params);
    res
}

/// The queries that store a function: the node, and each parameter with its edge.
fn function_queries_of(
    krate: &str,
    name: &str,
    span: &str,
    abi: Abi,
    safe: bool,
    params: &Vec<ParamInfo>,
    env: &SpanEnv,
) -> (res: FunctionQueries)
    requires
        can_clean(span@, env@),
        params@.len() <= i64::MAX,
    ensures
        res@ == function_queries(krate@, name@, span@, abi, safe, params@, env@),
{
    let node = function_node_query(krate, name, span, abi, safe, params, env);
    let mut accepts: Vec<GraphQuery> = Vec::new();
    let n = params.len();
    let mut i: usize = 0;
    while i < n
        invariant
            n == params@.len(),
            n <= i64::MAX,
            i <= n,
            accepts@.len() == i,
            forall|j: int|
                0 <= j < i ==> #[trigger] accepts@[j]@ == accepts_query(
                    krate@,
                    name@,
                    j,
                    params@[j].ty@,
                    params@[j].is_mutable_ptr,
                ),
        decreases n - i,
    {
        accepts.push(accepts_edge_query(krate, name, i as i64, &params[i]));
        i = i + 1;
    }
    let res = FunctionQueries { node, accepts };
    assert(res@.accepts =~= function_queries(krate@, name@, span@, abi, safe, params@, env@).accepts);
    res
}

/// The queries that store a function: its node, labelled by its calling
/// convention, and one parameter node per parameter, each linked from the
/// function by an `ACCEPTS` edge and telling whether it is a `*mut` pointer.
pub fn register_fn_queries(sig: &FunSig, env: &SpanEnv) -> (res: FunctionQueries)
    requires
        can_clean(sig.span@, env@),
        sig.params@.len() <= i64::MAX,
    ensures
        res@ == function_queries(
            sig.krate@,
            sig.name@,
            sig.span@,
            sig.abi,
            sig.safe,
            sig.params@,
            env@,
        ),
{
    function_queries_of(
        sig.krate.as_str(),
        sig.name.as_str(),
        sig.span.as_str(),
        sig.abi,
        sig.safe,
        &sig.params,
        env,
    )
}

/// The query that stores a call from `caller` to `callee` as an edge.
pub fn call_edge_query(caller: &str, callee: &str, span: &str, loop_level: i32, env: &SpanEnv) -> (res: GraphQuery)
    requires
        can_clean(span@, env@),
    ensures
        res@ == call_query(caller@, callee@, span@, loop_level as int, env@),
{
    let text = "MATCH (a:Fn), (b:Fn) WHERE a.name = $caller AND b.name = $callee MERGE (a)-[r:CALLS { span: $span, loop_level: $loop_level }]->(b) RETURN r".to_owned();
    let mut params: Vec<(String, QueryValue)> = Vec::new();
    params.push(("caller".to_owned(), QueryValue::Text(caller.to_owned())));
    params.push(("callee".to_owned(), QueryValue::Text(callee.to_owned())));
    params.push(("span".to_owned(), QueryValue::Text(clean_span(span, env))));
    params.push(("loop_level".to_owned(), QueryValue::Integer(loop_level as i64)));
    let res = GraphQuery { text, params };
    assert(res@.params =~= call_query(caller@, callee@, span@, loop_level as int, env@).params);
    res
}

/// A function item of the crate being walked.
#[derive(Debug, Clone)]
pub struct FnItem {
    /// The path of the function.
    pub name: String,
    /// The debug text of the span of the item.
    pub span: String,
    pub abi: Abi,
    pub safe: bool,
    /// The written parameters, in order.
    pub params: Vec<ParamInfo>,
}

/// Walks a crate and stores every function and every call between
/// functions in a graph, each call with the depth of loops around it.
pub struct Analyzer {
    /// The name of the current crate.
    crate_name: String,
    /// The current loop level (how many nested loops).
    loop_level: i32,
    /// Stack of the functions whose bodies are being walked.
    caller_name: Vec<String>,
    /// Where source paths live.
    span_env: SpanEnv,
}

/// The plain content of an `Analyzer`.
pub struct AnalyzerView {
    pub crate_name: Seq<char>,
    pub loop_level: int,
    pub callers: Seq<Seq<char>>,
    pub span_env: SpanEnvView,
}

impl View for Analyzer {
    type V = AnalyzerView;

    closed spec fn view(&self) -> AnalyzerView {
        AnalyzerView {
            crate_name: self.crate_name@,
            loop_level: self.loop_level as int,
            callers: self.caller_name.deep_view(),
            span_env: self.span_env@,
        }
    }
}

/// What a call expression leads to.
#[derive(Debug, Clone, PartialEq)]
pub enum CallOutcome {
    /// Not in a function body, or not a call of a function definition.
    Ignored,
    /// The callee has no recorded type.
    Untyped,
    /// The callee's type is not a function item type.
    NotFnDef,
    /// The call stands outside any function; the debug text of the callee's span is given.
    NoCaller(String),
    /// The callee's node, its parameters and the call edge are to be stored.
    Register { function: FunctionQueries, relation: GraphQuery },
}

/// The plain content of a `CallOutcome`.
pub enum CallOutcomeView {
    Ignored,
    Untyped,
    NotFnDef,
    NoCaller(Seq<char>),
    Register { function: FunctionQueriesView, relation: GraphQueryView },
}

impl View for CallOutcome {
    type V = CallOutcomeView;

    open spec fn view(&self) -> CallOutcomeView {
        match self {
            CallOutcome::Ignored => CallOutcomeView::Ignored,
            CallOutcome::Untyped => CallOutcomeView::Untyped,
            CallOutcome::NotFnDef => CallOutcomeView::NotFnDef,
            CallOutcome::NoCaller(s) => CallOutcomeView::NoCaller(s@),
            CallOutcome::Register { function, relation } => CallOutcomeView::Register {
                function: function@,
                relation: relation@,
            },
        }
    }
}

/// The spans that handling this call cleans can be cleaned.
pub open spec fn can_handle_call(site: CallSite, a: AnalyzerView) -> bool {
    call_check_spec(site) == CallCheck::Typed && a.callers.len() > 0 ==> {
        &&& can_clean(typed_callee(site).span@, a.span_env)
        &&& can_clean(site.span@, a.span_env)
        &&& typed_signature(site).params@.len() <= i64::MAX
    }
}

/// What a call site leads to in a given state.
pub open spec fn call_outcome_spec(site: CallSite, a: AnalyzerView) -> CallOutcomeView {
    match call_check_spec(site) {
        CallCheck::Ignored => CallOutcomeView::Ignored,
        CallCheck::Untyped => CallOutcomeView::Untyped,
        CallCheck::NotFnDef => CallOutcomeView::NotFnDef,
        CallCheck::Typed => {
            let callee = typed_callee(site);
            let sig = typed_signature(site);
            if a.callers.len() == 0 {
                CallOutcomeView::NoCaller(callee.span@)
            } else {
                CallOutcomeView::Register {
                    function: function_queries(
                        callee.krate@,
                        callee.name@,
                        callee.span@,
                        sig.abi,
                        sig.safe,
                        sig.params@,
                        a.span_env,
                    ),
                    relation: call_query(
                        a.callers.last(),
                        callee.name@,
                        site.span@,
                        a.loop_level,
                        a.span_env,
                    ),
                }
            }
        },
    }
}

/// The state inside one more loop.
pub open spec fn entered_loop(a: AnalyzerView) -> AnalyzerView {
    AnalyzerView { loop_level: a.loop_level + 1, ..a }
}

/// The state after leaving a loop.
pub open spec fn left_loop(a: AnalyzerView) -> AnalyzerView {
    AnalyzerView { loop_level: a.loop_level - 1, ..a }
}

/// The state inside the body of the function `name`.
pub open spec fn entered_fn(a: AnalyzerView, name: Seq<char>) -> AnalyzerView {
    AnalyzerView { callers: a.callers.push(name), ..a }
}

/// The state after leaving the innermost function body.
pub open spec fn left_fn(a: AnalyzerView) -> AnalyzerView {
    if a.callers.len() > 0 {
        AnalyzerView { callers: a.callers.drop_last(), ..a }
    } else {
        a
    }
}

impl Analyzer {
    /// An analyzer outside any function and any loop.
    pub fn new(crate_name: String, span_env: SpanEnv) -> (res: Self)
        ensures
            res@.crate_name == crate_name@,
            res@.loop_level == 0,
            res@.callers.len() == 0,
            res@.span_env == span_env@,
    {
        let res = Analyzer { crate_name, loop_level: 0, caller_name: Vec::new(), span_env };
        assert(res@.callers =~= Seq::<Seq<char>>::empty());
        res
    }

    /// The walk enters the body of a function item: its node is to be
    /// stored, with this crate as its crate, and it becomes the innermost caller.
    pub fn enter_fn(&mut self, item: &FnItem) -> (query: FunctionQueries)
        requires
            can_clean(item.span@, old(self)@.span_env),
            item.params@.len() <= i64::MAX,
        ensures
            query@ == function_queries(
                old(self)@.crate_name,
                item.name@,
                item.span@,
                item.abi,
                item.safe,
                item.params@,
                old(self)@.span_env,
            ),
            final(self)@ == entered_fn(old(self)@, item.name@),
    {
        let query = function_queries_of(
            self.crate_name.as_str(),
            item.name.as_str(),
            item.span.as_str(),
            item.abi,
            item.safe,
            &item.params,
            &self.span_env,
        );
        self.caller_name.push(item.name.clone());
        assert(self@.callers =~= old(self)@.callers.push(item.name@));
        query
    }

    /// Whether the walk is inside some function body.
    pub fn in_function(&self) -> (res: bool)
        ensures
            res == (self@.callers.len() > 0),
    {
        self.caller_name.len() > 0
    }

    /// The current loop level.
    pub fn loop_level(&self) -> (res: i32)
        ensures
            res as int == self@.loop_level,
    {
        self.loop_level
    }

    /// The loop level always fits an `i32`.
    pub proof fn lemma_loop_level_fits(&self)
        ensures
            i32::MIN <= self@.loop_level <= i32::MAX,
    {
    }

    /// The walk leaves the innermost function body.
    pub fn exit_fn(&mut self)
        ensures
            final(self)@ == left_fn(old(self)@),
    {
        if self.caller_name.len() > 0 {
            self.caller_name.pop();
            assert(self@.callers =~= old(self)@.callers.drop_last());
        }
    }

    /// The walk enters a loop.
    pub fn enter_loop(&mut self)
        requires
            old(self)@.loop_level < i32::MAX,
        ensures
            final(self)@ == entered_loop(old(self)@),
    {
        self.loop_level = self.loop_level + 1;
    }

    /// The walk leaves a loop.
    pub fn exit_loop(&mut self)
        requires
            old(self)@.loop_level > i32::MIN,
        ensures
            final(self)@ == left_loop(old(self)@),
    {
        self.loop_level = self.loop_level - 1;
    }

    /// Handles a call expression: a call of a function definition from
    /// inside a function body yields the callee's node and an edge from the
    /// innermost caller, carrying the current loop level.
    pub fn on_call(&self, site: &CallSite) -> (res: CallOutcome)
        requires
            can_handle_call(*site, self@),
        ensures
            res@ == call_outcome_spec(*site, self@),
    {
        match check_call(site) {
            CallCheck::Ignored => CallOutcome::Ignored,
            CallCheck::Untyped => CallOutcome::Untyped,
            CallCheck::NotFnDef => CallOutcome::NotFnDef,
            CallCheck::Typed => {
                let callee = match &site.callee {
                    Some(c) => c,
                    None => {
                        return CallOutcome::Ignored;
                    },
                };
                let sig = match &callee.ty {
                    CalleeType::FnDef(s) => s,
                    _ => {
                        return CallOutcome::Ignored;
                    },
                };
                let n = self.caller_name.len();
                if n == 0 {
                    return CallOutcome::NoCaller(callee.span.clone());
                }
                let function = function_queries_of(
                    callee.krate.as_str(),
                    callee.name.as_str(),
                    callee.span.as_str(),
                    sig.abi,
                    sig.safe,
                    &sig.params,
                    &self.span_env,
                );
                let relation = call_edge_query(
                    self.caller_name[n - 1].as_str(),
                    callee.name.as_str(),
                    site.span.as_str(),
                    self.loop_level,
                    &self.span_env,
                );
                CallOutcome::Register { function, relation }
            },
        }
    }
}

/// Entering a loop and leaving it again restores the state.
pub proof fn lemma_loop_scope_restores(a: AnalyzerView)
    ensures
        left_loop(entered_loop(a)) == a,
{
}

/// Entering a function body and leaving it again restores the state.
pub proof fn lemma_fn_scope_restores(a: AnalyzerView, name: Seq<char>)
    ensures
        left_fn(entered_fn(a, name)) == a,
{
    assert(a.callers.push(name).drop_last() =~= a.callers);
}

/// What the graph walk does at an expression: a call is handed over and
/// then walked into; a loop is walked one level deeper; anything else is
/// walked.
pub fn visit_plan(shape: ExprShape) -> (res: VisitPlan)
    ensures
        res == match shape {
            ExprShape::Call => VisitPlan::HandleCallThenWalk,
            ExprShape::Loop => VisitPlan::WalkInLoop,
            ExprShape::Other => VisitPlan::WalkChildren,
        },
{
    match shape {
        ExprShape::Call => VisitPlan::HandleCallThenWalk,
        ExprShape::Loop => VisitPlan::WalkInLoop,
        ExprShape::Other => VisitPlan::WalkChildren,
    }
}

/// Storing two functions with the same crate, name, span, calling
/// convention, safety and parameters gives the same queries.
pub proof fn lemma_same_signature_same_queries(s1: FunSig, s2: FunSig, env: SpanEnvView)
    requires
        s1.krate@ == s2.krate@,
        s1.name@ == s2.name@,
        s1.span@ == s2.span@,
        s1.abi == s2.abi,
        s1.safe == s2.safe,
        s1.params@.len() == s2.params@.len(),
        forall|i: int|
            0 <= i < s1.params@.len() ==> #[trigger] s1.params@[i].ty@ == s2.params@[i].ty@
                && s1.params@[i].is_mutable_ptr == s2.params@[i].is_mutable_ptr,
    ensures
        function_queries(s1.krate@, s1.name@, s1.span@, s1.abi, s1.safe, s1.params@, env)
            == function_queries(s2.krate@, s2.name@, s2.span@, s2.abi, s2.safe, s2.params@, env),
{
    let q1 = function_queries(s1.krate@, s1.name@, s1.span@, s1.abi, s1.safe, s1.params@, env);
    let q2 = function_queries(s2.krate@, s2.name@, s2.span@, s2.abi, s2.safe, s2.params@, env);
    assert(param_texts(s1.params@) =~= param_texts(s2.params@));
    assert(q1.accepts =~= q2.accepts);
}

/// Crates that the graph is never built for.
pub open spec fn is_skipped(crate_name: Seq<char>) -> bool {
    ||| crate_name == "tokio"@
    ||| crate_name == "time"@
    ||| crate_name == "rustix"@
    ||| crate_name == "parquet"@
    ||| crate_name == "build_script_build"@
    ||| crate_name == "find_msvc_tools"@
    ||| crate_name == "shlex"@
    ||| crate_name == "cc"@
}

/// Whether the graph is built for a crate of this name.
pub fn should_analyze(crate_name: &str) -> (res: bool)
    ensures
        res == !is_skipped(crate_name@),
{
    !(str_equal(crate_name, "tokio") || str_equal(crate_name, "time") || str_equal(
        crate_name,
        "rustix",
    ) || str_equal(crate_name, "parquet") || str_equal(crate_name, "build_script_build")
        || str_equal(crate_name, "find_msvc_tools") || str_equal(crate_name, "shlex")
        || str_equal(crate_name, "cc"))
}

/// A call met directly inside the body of `name` is stored as an edge
/// from `name`, at the loop level of that moment.
pub proof fn lemma_call_edge_from_innermost(site: CallSite, a: AnalyzerView, name: Seq<char>)
    requires
        call_check_spec(site) == CallCheck::Typed,
    ensures
        call_outcome_spec(site, entered_fn(a, name)) matches CallOutcomeView::Register {
            relation,
            ..
        } && relation == call_query(
            name,
            typed_callee(site).name@,
            site.span@,
            a.loop_level,
            a.span_env,
        ),
{
    assert(entered_fn(a, name).callers.last() == name);
}

/// A call met outside every function body is never stored.
pub proof fn lemma_no_edge_outside_functions(site: CallSite, a: AnalyzerView)
    requires
        a.callers.len() == 0,
    ensures
        !(call_outcome_spec(site, a) is Register),
{
}

/// The crate names that the graph walk skips.
pub open spec fn graph_skip_list() -> Seq<Seq<char>> {
    seq![
        "tokio"@,
        "time"@,
        "rustix"@,
        "parquet"@,
        "build_script_build"@,
        "find_msvc_tools"@,
        "shlex"@,
        "cc"@,
    ]
}

/// A crate is skipped exactly when its name is one of the eight listed
/// names; every other name, however close, is analyzed.
pub proof fn lemma_graph_skips_exactly_listed(crate_name: Seq<char>)
    ensures
        is_skipped(crate_name) <==> graph_skip_list().contains(crate_name),
{
    let l = graph_skip_list();
    if is_skipped(crate_name) {
        if crate_name == "tokio"@ {
            assert(l[0] == crate_name);
        } else if crate_name == "time"@ {
            assert(l[1] == crate_name);
        } else if crate_name == "rustix"@ {
            assert(l[2] == crate_name);
        } else if crate_name == "parquet"@ {
            assert(l[3] == crate_name);
        } else if crate_name == "build_script_build"@ {
            assert(l[4] == crate_name);
        } else if crate_name == "find_msvc_tools"@ {
            assert(l[5] == crate_name);
        } else if crate_name == "shlex"@ {
            assert(l[6] == crate_name);
        } else {
            assert(l[7] == crate_name);
        }
    }
    if l.contains(crate_name) {
        let i = choose|i: int| 0 <= i < l.len() && l[i] == crate_name;
        assert(0 <= i < 8);
    }
}

/// A name made by extending a skipped name (such as `tokio_util`) is
/// analyzed: no skipped name is a proper prefix of another.
pub proof fn lemma_graph_extended_names_analyzed(crate_name: Seq<char>, more: Seq<char>)
    requires
        is_skipped(crate_name),
        more.len() > 0,
    ensures
        !is_skipped(crate_name + more),
{
    reveal_strlit("tokio");
    reveal_strlit("time");
    reveal_strlit("rustix");
    reveal_strlit("parquet");
    reveal_strlit("build_script_build");
    reveal_strlit("find_msvc_tools");
    reveal_strlit("shlex");
    reveal_strlit("cc");
    let full = crate_name + more;
    if is_skipped(full) {
        assert(full.subrange(0, crate_name.len() as int) =~= crate_name);
        assert(full[0] == crate_name[0]);
        assert(full.len() > crate_name.len());
        if crate_name.len() > 1 {
            assert(full[1] == crate_name[1]);
        }
    }
}

/// A typed call met inside a function body stores the callee's node with
/// the callee's own name, crate, cleaned definition span, safety and
/// parameter texts, and an edge from the innermost caller to the callee
/// carrying the cleaned span of the call and the loop level.
pub proof fn lemma_call_registers_callee(site: CallSite, a: AnalyzerView)
    requires
        call_check_spec(site) == CallCheck::Typed,
        a.callers.len() > 0,
    ensures
        call_outcome_spec(site, a) matches CallOutcomeView::Register { function, relation } && {
            let callee = typed_callee(site);
            let sig = typed_signature(site);
            &&& function.node.text == function_query_text(sig.abi)
            &&& function.node.params.len() == 5
            &&& function.node.params[0] == ("name"@, QueryValueView::Text(callee.name@))
            &&& function.node.params[1] == ("crate"@, QueryValueView::Text(callee.krate@))
            &&& function.node.params[2] == ("safe"@, QueryValueView::Flag(sig.safe))
            &&& function.node.params[3] == ("span"@, QueryValueView::Text(
                clean_span_spec(callee.span@, a.span_env),
            ))
            &&& function.node.params[4] == ("params"@, QueryValueView::TextList(
                param_texts(sig.params@),
            ))
            &&& function.accepts.len() == sig.params@.len()
            &&& relation.params[0] == ("caller"@, QueryValueView::Text(a.callers.last()))
            &&& relation.params[1] == ("callee"@, QueryValueView::Text(callee.name@))
            &&& relation.params[2] == ("span"@, QueryValueView::Text(
                clean_span_spec(site.span@, a.span_env),
            ))
            &&& relation.params[3] == ("loop_level"@, QueryValueView::Integer(a.loop_level))
        },
{
}

/// The node query of a function stores exactly what it is given: its name,
/// crate, safety flag, cleaned span and parameter texts, in that order,
/// under the label of its calling convention; and the parameter queries
/// store, at each position, that parameter's type and pointer flag.
pub proof fn lemma_function_queries_store_fields(
    krate: Seq<char>,
    name: Seq<char>,
    span: Seq<char>,
    abi: Abi,
    safe: bool,
    params: Seq<ParamInfo>,
    env: SpanEnvView,
)
    ensures
        ({
            let q = function_queries(krate, name, span, abi, safe, params, env);
            &&& q.node.text == "MERGE (f:Fn:"@ + abi_label(abi)
                + " {name: $name, crate: $crate}) SET f.safe = $safe, f.span = $span, f.params = $params RETURN f"@
            &&& q.node.params.len() == 5
            &&& q.node.params[0] == ("name"@, QueryValueView::Text(name))
            &&& q.node.params[1] == ("crate"@, QueryValueView::Text(krate))
            &&& q.node.params[2] == ("safe"@, QueryValueView::Flag(safe))
            &&& q.node.params[3] == ("span"@, QueryValueView::Text(clean_span_spec(span, env)))
            &&& q.node.params[4] == ("params"@, QueryValueView::TextList(
                params.map_values(|p: ParamInfo| p.ty@),
            ))
            &&& q.accepts.len() == params.len()
            &&& forall|i: int|
                0 <= i < params.len() ==> {
                    &&& (#[trigger] q.accepts[i]).params.len() == 5
                    &&& q.accepts[i].params[0] == ("name"@, QueryValueView::Text(name))
                    &&& q.accepts[i].params[1] == ("crate"@, QueryValueView::Text(krate))
                    &&& q.accepts[i].params[2] == ("position"@, QueryValueView::Integer(i))
                    &&& q.accepts[i].params[3] == ("ty"@, QueryValueView::Text(params[i].ty@))
                    &&& q.accepts[i].params[4] == ("is_mutable_ptr"@, QueryValueView::Flag(
                        params[i].is_mutable_ptr,
                    ))
                }
        }),
{
}

/// The safety flag is the only thing in which the node queries of two
/// otherwise equal functions differ when their safety differs.
pub proof fn lemma_safety_is_stored(
    krate: Seq<char>,
    name: Seq<char>,
    span: Seq<char>,
    abi: Abi,
    params: Seq<ParamInfo>,
    env: SpanEnvView,
)
    ensures
        function_queries(krate, name, span, abi, true, params, env).node.params[2]
            == ("safe"@, QueryValueView::Flag(true)),
        function_queries(krate, name, span, abi, false, params, env).node.params[2]
            == ("safe"@, QueryValueView::Flag(false)),
        function_queries(krate, name, span, abi, true, params, env).node
            != function_queries(krate, name, span, abi, false, params, env).node,
{
    lemma_function_queries_store_fields(krate, name, span, abi, true, params, env);
    lemma_function_queries_store_fields(krate, name, span, abi, false, params, env);
}

} // verus!
