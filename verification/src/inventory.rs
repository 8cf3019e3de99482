use vstd::prelude::*;

use crate::args::str_equal;
use crate::call::{
    check_call, call_check_spec, typed_callee, typed_signature, Abi, CallCheck, CallSite,
    CalleeType, ExprShape, ParamInfo, VisitPlan,
};
use crate::data::{FnData, FnDataView, InvocData, InvocDataView, ParamData, ParamDataView};
use crate::keyed::{has_key, keys_distinct, lemma_keyed_push};
use crate::span::{
    can_clean, clean_span_spec, has_prefix, join_path, joined_path, lemma_joined_path_keeps_base,
    SpanEnv, SpanEnvView,
};

verus! {

/// Collects the foreign functions that a crate calls and every call of them.
pub struct Analyzer {
    /// The foreign functions met so far, each name once, in the order first met.
    fns: Vec<(String, FnData)>,
    /// Every call of a foreign function, in the order met.
    invocs: Vec<InvocData>,
    /// The name of the current workspace.
    workspace: Option<String>,
    /// The name of the current crate.
    crate_name: String,
    /// Where source paths live.
    span_env: SpanEnv,
}

/// The plain content of an `Analyzer`.
pub struct AnalyzerView {
    pub fns: Seq<(Seq<char>, FnDataView)>,
    pub invocs: Seq<InvocDataView>,
    pub workspace: Option<Seq<char>>,
    pub crate_name: Seq<char>,
    pub span_env: SpanEnvView,
}

/// The plain content of the function list.
pub open spec fn fn_entries(v: Seq<(String, FnData)>) -> Seq<(Seq<char>, FnDataView)> {
    v.map_values(|e: (String, FnData)| (e.0@, e.1@))
}

/// The plain content of an optional string.
pub open spec fn opt_view(o: Option<String>) -> Option<Seq<char>> {
    match o {
        Some(s) => Some(s@),
        None => None,
    }
}

impl View for Analyzer {
    type V = AnalyzerView;

    closed spec fn view(&self) -> AnalyzerView {
        AnalyzerView {
            fns: fn_entries(self.fns@),
            invocs: self.invocs@.map_values(|i: InvocData| i@),
            workspace: opt_view(self.workspace),
            crate_name: self.crate_name@,
            span_env: self.span_env@,
        }
    }
}

/// What became of a call site.
#[derive(Clone, Copy, Debug, PartialEq, Eq, Structural)]
pub enum CallOutcome {
    /// Not in a function body, or not a call of a function definition.
    Ignored,
    /// The callee has no recorded type.
    Untyped,
    /// The callee's type is not a function item type.
    NotFnDef,
    /// The callee does not use the C calling convention.
    NotForeign,
    /// The call was recorded.
    Recorded,
}

/// The outcome that a call site has.
pub open spec fn outcome_spec(site: CallSite) -> CallOutcome {
    match call_check_spec(site) {
        CallCheck::Ignored => CallOutcome::Ignored,
        CallCheck::Untyped => CallOutcome::Untyped,
        CallCheck::NotFnDef => CallOutcome::NotFnDef,
        CallCheck::Typed => if typed_signature(site).abi is C {
            CallOutcome::Recorded
        } else {
            CallOutcome::NotForeign
        },
    }
}

/// The record kept of a foreign function when it is first met.
pub open spec fn fn_record(site: CallSite, env: SpanEnvView) -> FnDataView {
    FnDataView {
        parameters: typed_signature(site).params@.map_values(
            |p: ParamInfo| ParamDataView { ty: p.ty@, properties: Map::empty() },
        ),
        span: clean_span_spec(typed_callee(site).span@, env),
        crate_name: typed_callee(site).krate@,
    }
}

/// The record kept of a call of a foreign function.
pub open spec fn invoc_record(site: CallSite, a: AnalyzerView) -> InvocDataView {
    InvocDataView {
        function: typed_callee(site).name@,
        span: clean_span_spec(site.span@, a.span_env),
        workspace: a.workspace,
        crate_name: a.crate_name,
    }
}

/// The function list after a foreign call: a function already met keeps
/// its first record; a new one is added at the end.
pub open spec fn fns_after(site: CallSite, a: AnalyzerView) -> Seq<(Seq<char>, FnDataView)> {
    let name = typed_callee(site).name@;
    if has_key(a.fns, name) {
        a.fns
    } else {
        a.fns.push((name, fn_record(site, a.span_env)))
    }
}

/// The spans that recording this call cleans can be cleaned.
pub open spec fn can_record(site: CallSite, a: AnalyzerView) -> bool {
    outcome_spec(site) == CallOutcome::Recorded ==> {
        &&& can_clean(site.span@, a.span_env)
        &&& !has_key(a.fns, typed_callee(site).name@) ==> can_clean(
            typed_callee(site).span@,
            a.span_env,
        )
    }
}

/// The analyzer state after a call site.
pub open spec fn after_call(site: CallSite, a: AnalyzerView) -> AnalyzerView {
    if outcome_spec(site) == CallOutcome::Recorded {
        AnalyzerView {
            fns: fns_after(site, a),
            invocs: a.invocs.push(invoc_record(site, a)),
            ..a
        }
    } else {
        a
    }
}

impl Analyzer {
    #[verifier::type_invariant]
    closed spec fn function_names_distinct(self) -> bool {
        keys_distinct(fn_entries(self.fns@))
    }

    /// An analyzer that has met nothing yet.
    pub fn new(workspace: Option<String>, crate_name: String, span_env: SpanEnv) -> (res: Self)
        ensures
            res@.fns.len() == 0,
            res@.invocs.len() == 0,
            res@.workspace == opt_view(workspace),
            res@.crate_name == crate_name@,
            res@.span_env == span_env@,
    {
        let res = Analyzer { fns: Vec::new(), invocs: Vec::new(), workspace, crate_name, span_env };
        assert(fn_entries(res.fns@) =~= Seq::empty());
        res
    }

    /// The foreign functions met so far, each name once.
    pub fn functions(&self) -> (res: &Vec<(String, FnData)>)
        ensures
            fn_entries(res@) == self@.fns,
            keys_distinct(self@.fns),
    {
        proof {
            use_type_invariant(self);
        }
        &self.fns
    }

    /// The calls of foreign functions met so far.
    pub fn invocations(&self) -> (res: &Vec<InvocData>)
        ensures
            res@.map_values(|i: InvocData| i@) == self@.invocs,
    {
        &self.invocs
    }

    /// The name of the current workspace.
    pub fn workspace(&self) -> (res: &Option<String>)
        ensures
            opt_view(*res) == self@.workspace,
    {
        &self.workspace
    }

    /// The name of the current crate.
    pub fn crate_name(&self) -> (res: &str)
        ensures
            res@ == self@.crate_name,
    {
        self.crate_name.as_str()
    }

    /// Whether a function of this name was met already.
    pub fn knows_function(&self, name: &str) -> (res: bool)
        ensures
            res == has_key(self@.fns, name@),
    {
        let n = self.fns.len();
        let mut i: usize = 0;
        while i < n
            invariant
                n == self.fns@.len(),
                i <= n,
                forall|j: int| 0 <= j < i ==> #[trigger] fn_entries(self.fns@)[j].0 != name@,
            decreases n - i,
        {
            if str_equal(self.fns[i].0.as_str(), name) {
                assert(fn_entries(self.fns@)[i as int].0 == name@);
                return true;
            }
            i = i + 1;
        }
        false
    }

    /// Handles a call expression: a call of a foreign (C) function records
    /// the function, the first time its name is met, and the call itself.
    pub fn on_call(&mut self, site: &CallSite) -> (res: CallOutcome)
        requires
            can_record(*site, old(self)@),
        ensures
            res == outcome_spec(*site),
            final(self)@ == after_call(*site, old(self)@),
            keys_distinct(final(self)@.fns),
    {
        proof {
            use_type_invariant(&*self);
        }
        match check_call(site) {
            CallCheck::Ignored => CallOutcome::Ignored,
            CallCheck::Untyped => CallOutcome::Untyped,
            CallCheck::NotFnDef => CallOutcome::NotFnDef,
            CallCheck::Typed => {
                let callee = match &site.callee {
                    Some(c) => c,
                    None => {
                        return CallOutcome::Ignored;
                    },
                };
                let sig = match &callee.ty {
                    CalleeType::FnDef(s) => s,
                    _ => {
                        return CallOutcome::Ignored;
                    },
                };
                match sig.abi {
                    Abi::C { .. } => {},
                    _ => {
                        return CallOutcome::NotForeign;
                    },
                }
                let ghost before = self@;
                if !self.knows_function(callee.name.as_str()) {
                    let mut parameters: Vec<ParamData> = Vec::new();
                    let n = sig.params.len();
                    let mut i: usize = 0;
                    while i < n
                        invariant
                            n == sig.params@.len(),
                            i <= n,
                            parameters@.len() == i,
                            forall|j: int|
                                0 <= j < i ==> #[trigger] parameters@[j]@ == (ParamDataView {
                                    ty: sig.params@[j].ty@,
                                    properties: Map::empty(),
                                }),
                        decreases n - i,
                    {
                        parameters.push(ParamData::new(sig.params[i].ty.as_str()));
                        i = i + 1;
                    }
                    let record = FnData::new(
                        parameters,
                        callee.span.as_str(),
                        &self.span_env,
                        callee.krate.clone(),
                    );
                    proof {
                        assert(record@ == fn_record(*site, before.span_env)) by {
                            assert(record@.parameters =~= fn_record(*site, before.span_env).parameters);
                        }
                        lemma_keyed_push(before.fns, callee.name@, record@);
                    }
                    let mut fns: Vec<(String, FnData)> = Vec::new();
                    std::mem::swap(&mut fns, &mut self.fns);
                    assert(fn_entries(fns@) == before.fns);
                    fns.push((callee.name.clone(), record));
                    assert(fn_entries(fns@) =~= before.fns.push((callee.name@, record@)));
                    self.fns = fns;
                    proof {
                        assert(fn_entries(self.fns@) =~= before.fns.push((callee.name@, record@)));
                    }
                }
                let invoc = InvocData::new(
                    callee.name.clone(),
                    site.span.as_str(),
                    &self.span_env,
                    self.workspace.clone(),
                    self.crate_name.clone(),
                );
                let mut invocs: Vec<InvocData> = Vec::new();
                std::mem::swap(&mut invocs, &mut self.invocs);
                invocs.push(invoc);
                self.invocs = invocs;
                proof {
                    assert(self@.fns =~= fns_after(*site, before));
                    assert(self@.invocs =~= before.invocs.push(invoc_record(*site, before)));
                }
                CallOutcome::Recorded
            },
        }
    }
}

/// Crates that the inventory never walks.
pub open spec fn is_skipped(crate_name: Seq<char>) -> bool {
    ||| crate_name == "tokio"@
    ||| crate_name == "time"@
    ||| crate_name == "rustix"@
    ||| crate_name == "parquet"@
}

/// Whether the inventory walks a crate of this name.
pub fn should_analyze(crate_name: &str) -> (res: bool)
    ensures
        res == !is_skipped(crate_name@),
{
    !(str_equal(crate_name, "tokio") || str_equal(crate_name, "time") || str_equal(
        crate_name,
        "rustix",
    ) || str_equal(crate_name, "parquet"))
}

/// Where to reach the MongoDB database that the inventory is written to.
#[derive(Debug, Clone, PartialEq, Eq)]
pub struct MongoConfig {
    pub uri: String,
    pub db: String,
}

/// The MongoDB settings, where both the address and the database are given.
pub fn mongo_config(uri: Option<String>, db: Option<String>) -> (res: Option<MongoConfig>)
    ensures
        match res {
            Some(c) => uri == Some(c.uri) && db == Some(c.db),
            None => uri is None || db is None,
        },
{
    match (uri, db) {
        (Some(uri), Some(db)) => Some(MongoConfig { uri, db }),
        _ => None,
    }
}

/// The files that the inventory of one crate is written to.
#[derive(Debug, Clone, PartialEq, Eq)]
pub struct OutputLocation {
    /// The directory of this crate's files.
    pub dir: String,
    /// The file of the function records.
    pub functions_file: String,
    /// The file of the invocation records.
    pub invocations_file: String,
}

/// The directory of a crate's files: the output directory, then the
/// workspace where there is one, then the crate.
pub open spec fn output_dir_spec(
    out_dir: Seq<char>,
    workspace: Option<Seq<char>>,
    crate_name: Seq<char>,
) -> Seq<char> {
    let base = match workspace {
        Some(w) => joined_path(out_dir, w),
        None => out_dir,
    };
    joined_path(base, crate_name)
}

/// Lays out where the inventory of a crate is written.
pub fn output_location(out_dir: &str, workspace: Option<&str>, crate_name: &str) -> (res: OutputLocation)
    ensures
        res.dir@ == output_dir_spec(out_dir@, workspace.deep_view(), crate_name@),
        res.functions_file@ == joined_path(res.dir@, "functions.json"@),
        res.invocations_file@ == joined_path(res.dir@, "invocations.json"@),
{
    let base = match workspace {
        Some(w) => join_path(out_dir, w),
        None => out_dir.to_owned(),
    };
    let dir = join_path(base.as_str(), crate_name);
    let functions_file = join_path(dir.as_str(), "functions.json");
    let invocations_file = join_path(dir.as_str(), "invocations.json");
    OutputLocation { dir, functions_file, invocations_file }
}

/// Handling a call never drops or changes a record: the function and
/// invocation lists of before are prefixes of those after, each grows by
/// at most one, and the names stay distinct.
pub proof fn lemma_call_keeps_records(site: CallSite, a: AnalyzerView)
    requires
        keys_distinct(a.fns),
    ensures
        after_call(site, a).fns.take(a.fns.len() as int) == a.fns,
        after_call(site, a).invocs.take(a.invocs.len() as int) == a.invocs,
        after_call(site, a).fns.len() <= a.fns.len() + 1,
        after_call(site, a).invocs.len() == a.invocs.len() + if outcome_spec(site)
            == CallOutcome::Recorded {
            1int
        } else {
            0int
        },
        keys_distinct(after_call(site, a).fns),
{
    let b = after_call(site, a);
    if outcome_spec(site) == CallOutcome::Recorded {
        assert(b.invocs.take(a.invocs.len() as int) =~= a.invocs);
        if !has_key(a.fns, typed_callee(site).name@) {
            lemma_keyed_push(a.fns, typed_callee(site).name@, fn_record(site, a.span_env));
            assert(b.fns.take(a.fns.len() as int) =~= a.fns);
        } else {
            assert(b.fns.take(a.fns.len() as int) =~= a.fns);
        }
    } else {
        assert(b.fns.take(a.fns.len() as int) =~= a.fns);
        assert(b.invocs.take(a.invocs.len() as int) =~= a.invocs);
    }
}

/// A second call of a function that is already known adds an invocation
/// and leaves the function list as it was.
pub proof fn lemma_known_function_kept(site: CallSite, a: AnalyzerView)
    requires
        outcome_spec(site) == CallOutcome::Recorded,
        has_key(a.fns, typed_callee(site).name@),
    ensures
        after_call(site, a).fns == a.fns,
        after_call(site, a).invocs == a.invocs.push(invoc_record(site, a)),
{
}

/// What the inventory walk does at an expression: a call is handed over
/// and then walked into; anything else, loops included, is walked.
pub fn visit_plan(shape: ExprShape) -> (res: VisitPlan)
    ensures
        res == match shape {
            ExprShape::Call => VisitPlan::HandleCallThenWalk,
            _ => VisitPlan::WalkChildren,
        },
{
    match shape {
        ExprShape::Call => VisitPlan::HandleCallThenWalk,
        _ => VisitPlan::WalkChildren,
    }
}

/// Some recorded invocation calls `name`.
pub open spec fn invoked(a: AnalyzerView, name: Seq<char>) -> bool {
    exists|i: int| 0 <= i < a.invocs.len() && #[trigger] a.invocs[i].function == name
}

/// The functions listed are exactly the functions invoked, and there are
/// no more functions than invocations.
pub open spec fn names_match_invocations(a: AnalyzerView) -> bool {
    &&& forall|name: Seq<char>|
        #![trigger has_key(a.fns, name)]
        #![trigger invoked(a, name)]
        has_key(a.fns, name) <==> invoked(a, name)
    &&& a.fns.len() <= a.invocs.len()
}

/// A fresh analyzer lists nothing and has invoked nothing.
pub proof fn lemma_fresh_names_match(a: AnalyzerView)
    requires
        a.fns.len() == 0,
        a.invocs.len() == 0,
    ensures
        names_match_invocations(a),
{
}

/// After any call site, the functions listed are still exactly the
/// functions invoked, and there are still no more functions than invocations.
pub proof fn lemma_call_keeps_names_matched(site: CallSite, a: AnalyzerView)
    requires
        names_match_invocations(a),
    ensures
        names_match_invocations(after_call(site, a)),
{
    if outcome_spec(site) == CallOutcome::Recorded {
        let b = after_call(site, a);
        let name = typed_callee(site).name@;
        let last = a.invocs.len() as int;
        assert(b.invocs[last].function == name);
        assert forall|k: Seq<char>| #[trigger] invoked(b, k) == (invoked(a, k) || k == name) by {
            if invoked(a, k) {
                let i = choose|i: int| 0 <= i < a.invocs.len() && #[trigger] a.invocs[i].function == k;
                assert(b.invocs[i] == a.invocs[i]);
            }
            if invoked(b, k) && k != name {
                let i = choose|i: int| 0 <= i < b.invocs.len() && #[trigger] b.invocs[i].function == k;
                assert(i < last);
                assert(b.invocs[i] == a.invocs[i]);
            }
        }
        assert forall|k: Seq<char>| #[trigger] has_key(b.fns, k) == (has_key(a.fns, k) || k == name) by {
            if !has_key(a.fns, name) {
                let f = a.fns.push((name, fn_record(site, a.span_env)));
                assert(f[a.fns.len() as int].0 == name);
                if has_key(a.fns, k) {
                    let i = choose|i: int| 0 <= i < a.fns.len() && #[trigger] a.fns[i].0 == k;
                    assert(f[i] == a.fns[i]);
                }
                if has_key(f, k) && k != name {
                    let i = choose|i: int| 0 <= i < f.len() && #[trigger] f[i].0 == k;
                    assert(i < a.fns.len());
                    assert(f[i] == a.fns[i]);
                }
            }
        }
        assert(invoked(a, name) == has_key(a.fns, name));
    }
}

/// The analyzer state after the call sites `sites`, met in order.
pub open spec fn after_calls(sites: Seq<CallSite>, a: AnalyzerView) -> AnalyzerView
    decreases sites.len(),
{
    if sites.len() == 0 {
        a
    } else {
        after_call(sites.last(), after_calls(sites.drop_last(), a))
    }
}

/// From a fresh analyzer, after any sequence of call sites, the functions
/// listed are exactly the functions invoked, and there are no more
/// functions than invocations.
pub proof fn lemma_calls_keep_names_matched(sites: Seq<CallSite>, a: AnalyzerView)
    requires
        a.fns.len() == 0,
        a.invocs.len() == 0,
    ensures
        names_match_invocations(after_calls(sites, a)),
    decreases sites.len(),
{
    if sites.len() == 0 {
        lemma_fresh_names_match(a);
    } else {
        lemma_calls_keep_names_matched(sites.drop_last(), a);
        lemma_call_keeps_names_matched(sites.last(), after_calls(sites.drop_last(), a));
    }
}

/// The record kept of a newly met foreign function lists, at each
/// position, the type text of the parameter at that position of the
/// callee's signature, with no properties; it carries the callee's crate
/// and its cleaned definition span.
pub proof fn lemma_fn_record_follows_signature(site: CallSite, env: SpanEnvView)
    ensures
        fn_record(site, env).parameters.len() == typed_signature(site).params@.len(),
        forall|i: int|
            0 <= i < typed_signature(site).params@.len() ==> (#[trigger] fn_record(
                site,
                env,
            ).parameters[i]).ty == typed_signature(site).params@[i].ty@ && fn_record(
                site,
                env,
            ).parameters[i].properties == Map::<Seq<char>, bool>::empty(),
        fn_record(site, env).crate_name == typed_callee(site).krate@,
        fn_record(site, env).span == clean_span_spec(typed_callee(site).span@, env),
{
}

/// A recorded call of a function met for the first time adds, under the
/// callee's name, a record whose parameters follow the signature in order,
/// and an invocation naming the callee with the cleaned span of the call,
/// this workspace and this crate.
pub proof fn lemma_first_call_recorded(site: CallSite, a: AnalyzerView)
    requires
        outcome_spec(site) == CallOutcome::Recorded,
        !has_key(a.fns, typed_callee(site).name@),
    ensures
        ({
            let b = after_call(site, a);
            let sig = typed_signature(site);
            &&& b.fns.len() == a.fns.len() + 1
            &&& b.fns.last().0 == typed_callee(site).name@
            &&& b.fns.last().1.parameters.len() == sig.params@.len()
            &&& forall|i: int|
                0 <= i < sig.params@.len() ==> (#[trigger] b.fns.last().1.parameters[i]).ty
                    == sig.params@[i].ty@
            &&& b.fns.last().1.span == clean_span_spec(typed_callee(site).span@, a.span_env)
            &&& b.invocs.last().function == typed_callee(site).name@
            &&& b.invocs.last().span == clean_span_spec(site.span@, a.span_env)
            &&& b.invocs.last().workspace == a.workspace
            &&& b.invocs.last().crate_name == a.crate_name
        }),
{
    lemma_fn_record_follows_signature(site, a.span_env);
}

/// The crate names that the inventory walk skips.
pub open spec fn inventory_skip_list() -> Seq<Seq<char>> {
    seq!["tokio"@, "time"@, "rustix"@, "parquet"@]
}

/// A crate is skipped exactly when its name is one of the four listed names.
pub proof fn lemma_inventory_skips_exactly_listed(crate_name: Seq<char>)
    ensures
        is_skipped(crate_name) <==> inventory_skip_list().contains(crate_name),
{
    let l = inventory_skip_list();
    if is_skipped(crate_name) {
        if crate_name == "tokio"@ {
            assert(l[0] == crate_name);
        } else if crate_name == "time"@ {
            assert(l[1] == crate_name);
        } else if crate_name == "rustix"@ {
            assert(l[2] == crate_name);
        } else {
            assert(l[3] == crate_name);
        }
    }
    if l.contains(crate_name) {
        let i = choose|i: int| 0 <= i < l.len() && l[i] == crate_name;
        assert(0 <= i < 4);
    }
}

/// The output directory always has a level for the workspace, where there
/// is one, and below it a level for the crate, whatever the names are.
pub proof fn lemma_output_dir_levels(out_dir: Seq<char>, workspace: Option<Seq<char>>, crate_name: Seq<char>)
    ensures
        output_dir_spec(out_dir, workspace, crate_name) == match workspace {
            Some(w) => joined_path(joined_path(out_dir, w), crate_name),
            None => joined_path(out_dir, crate_name),
        },
        workspace is Some && out_dir.len() > 0 && crate_name.len() > 0 && crate_name[0] != '/' ==> {
            let base = joined_path(out_dir, workspace->0);
            &&& has_prefix(output_dir_spec(out_dir, workspace, crate_name), base)
            &&& output_dir_spec(out_dir, workspace, crate_name).len() > base.len()
        },
{
    if workspace is Some && out_dir.len() > 0 && crate_name.len() > 0 && crate_name[0] != '/' {
        let base = joined_path(out_dir, workspace->0);
        lemma_joined_path_keeps_base(out_dir, workspace->0);
        lemma_joined_path_keeps_base(base, crate_name);
    }
}

/// Every recorded call, of a new or a known function, appends exactly one
/// invocation that names the callee and carries the cleaned span of the
/// call, this workspace and this crate; a call that is not recorded
/// changes nothing.
pub proof fn lemma_recorded_invocation(site: CallSite, a: AnalyzerView)
    ensures
        outcome_spec(site) == CallOutcome::Recorded ==> {
            let b = after_call(site, a);
            &&& b.invocs.len() == a.invocs.len() + 1
            &&& b.invocs.last().function == typed_callee(site).name@
            &&& b.invocs.last().span == clean_span_spec(site.span@, a.span_env)
            &&& b.invocs.last().workspace == a.workspace
            &&& b.invocs.last().crate_name == a.crate_name
            &&& b.workspace == a.workspace
            &&& b.crate_name == a.crate_name
            &&& b.span_env == a.span_env
        },
        outcome_spec(site) != CallOutcome::Recorded ==> after_call(site, a) == a,
        outcome_spec(site) == CallOutcome::Recorded <==> (call_check_spec(site) == CallCheck::Typed
            && typed_signature(site).abi is C),
{
}

} // verus!
