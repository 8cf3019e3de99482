use vstd::prelude::*;

use crate::args::str_equal;
use crate::keyed::{has_key, keyed_map, keys_distinct, lemma_keyed_push, lemma_keyed_update};
use crate::span::{can_clean, clean_span, clean_span_spec, SpanEnv};

verus! {

/// Consolidates information about a function parameter.
#[derive(Debug)]
pub struct ParamData {
    /// The type of this parameter.
    ty: String,
    /// Named boolean facts about the parameter, each name once.
    properties: Vec<(String, bool)>,
}

/// The plain content of a `ParamData`.
pub struct ParamDataView {
    pub ty: Seq<char>,
    pub properties: Map<Seq<char>, bool>,
}

impl View for ParamData {
    type V = ParamDataView;

    closed spec fn view(&self) -> ParamDataView {
        ParamDataView { ty: self.ty@, properties: keyed_map(self.properties.deep_view()) }
    }
}

impl ParamData {
    #[verifier::type_invariant]
    closed spec fn property_names_distinct(self) -> bool {
        keys_distinct(self.properties.deep_view())
    }

    /// A parameter of the given type (its debug text), with no properties yet.
    pub fn new(ty: &str) -> (res: Self)
        ensures
            res@.ty == ty@,
            res@.properties == Map::<Seq<char>, bool>::empty(),
    {
        let res = ParamData { ty: ty.to_owned(), properties: Vec::new() };
        assert(keyed_map(res.properties.deep_view()) =~= Map::<Seq<char>, bool>::empty());
        res
    }

    /// The type of this parameter.
    pub fn ty(&self) -> (res: &str)
        ensures
            res@ == self@.ty,
    {
        self.ty.as_str()
    }

    /// The properties, each name once.
    pub fn properties(&self) -> (res: &Vec<(String, bool)>)
        ensures
            keys_distinct(res.deep_view()),
            keyed_map(res.deep_view()) == self@.properties,
    {
        proof {
            use_type_invariant(self);
        }
        &self.properties
    }

    /// Sets the property `key` to `value`, replacing an earlier value under that name.
    pub fn with_property(self, key: &str, value: bool) -> (res: Self)
        ensures
            res@.ty == self@.ty,
            res@.properties == self@.properties.insert(key@, value),
    {
        proof {
            use_type_invariant(&self);
        }
        let ParamData { ty, mut properties } = self;
        let ghost before = properties.deep_view();
        let ghost old_ty = ty@;
        assert(keys_distinct(before));
        let n = properties.len();
        let mut i: usize = 0;
        while i < n
            invariant
                n == properties@.len(),
                before == properties.deep_view(),
                keys_distinct(before),
                ty@ == old_ty,
                old_ty == self@.ty,
                keyed_map(before) == self@.properties,
                i <= n,
                forall|j: int| 0 <= j < i ==> #[trigger] before[j].0 != key@,
            decreases n - i,
        {
            assert(before[i as int].0 == properties@[i as int].0@);
            if str_equal(properties[i].0.as_str(), key) {
                let name = properties[i].0.clone();
                properties.set(i, (name, value));
                proof {
                    lemma_keyed_update(before, i as int, value);
                    assert(properties.deep_view() =~= before.update(i as int, (before[i as int].0, value)));
                }
                return ParamData { ty, properties };
            }
            i = i + 1;
        }
        properties.push((key.to_owned(), value));
        proof {
            assert(!has_key(before, key@));
            lemma_keyed_push(before, key@, value);
            assert(properties.deep_view() =~= before.push((key@, value)));
        }
        ParamData { ty, properties }
    }
}

/// Consolidates information about a function.
#[derive(Debug)]
pub struct FnData {
    /// List of parameters (not arguments).
    parameters: Vec<ParamData>,
    /// The place where this function is defined.
    span: String,
    /// The crate in which this function is defined.
    crate_name: String,
}

/// The plain content of a `FnData`.
pub struct FnDataView {
    pub parameters: Seq<ParamDataView>,
    pub span: Seq<char>,
    pub crate_name: Seq<char>,
}

impl View for FnData {
    type V = FnDataView;

    closed spec fn view(&self) -> FnDataView {
        FnDataView {
            parameters: self.parameters@.map_values(|p: ParamData| p@),
            span: self.span@,
            crate_name: self.crate_name@,
        }
    }
}

impl FnData {
    /// A function record; its span is stored in cleaned form.
    pub fn new(parameters: Vec<ParamData>, span: &str, env: &SpanEnv, crate_name: String) -> (res: Self)
        requires
            can_clean(span@, env@),
        ensures
            res@.parameters == parameters@.map_values(|p: ParamData| p@),
            res@.span == clean_span_spec(span@, env@),
            res@.crate_name == crate_name@,
    {
        FnData { parameters, span: clean_span(span, env), crate_name }
    }

    /// The parameters.
    pub fn parameters(&self) -> (res: &Vec<ParamData>)
        ensures
            res@.map_values(|p: ParamData| p@) == self@.parameters,
    {
        &self.parameters
    }

    /// The cleaned span of the definition.
    pub fn span(&self) -> (res: &str)
        ensures
            res@ == self@.span,
    {
        self.span.as_str()
    }

    /// The crate that defines the function.
    pub fn crate_name(&self) -> (res: &str)
        ensures
            res@ == self@.crate_name,
    {
        self.crate_name.as_str()
    }
}

/// Consolidates information about a function invocation.
#[derive(Debug)]
pub struct InvocData {
    /// The function being invoked.
    function: String,
    /// The place where this invocation occurs.
    span: String,
    /// The workspace in which this invocation occurs.
    workspace: Option<String>,
    /// The crate in which this invocation occurs.
    crate_name: String,
}

/// The plain content of an `InvocData`.
pub struct InvocDataView {
    pub function: Seq<char>,
    pub span: Seq<char>,
    pub workspace: Option<Seq<char>>,
    pub crate_name: Seq<char>,
}

impl View for InvocData {
    type V = InvocDataView;

    closed spec fn view(&self) -> InvocDataView {
        InvocDataView {
            function: self.function@,
            span: self.span@,
            workspace: match self.workspace {
                Some(w) => Some(w@),
                None => None,
            },
            crate_name: self.crate_name@,
        }
    }
}

impl InvocData {
    /// An invocation record; its span is stored in cleaned form.
    pub fn new(
        function: String,
        source: &str,
        env: &SpanEnv,
        workspace: Option<String>,
        crate_name: String,
    ) -> (res: Self)
        requires
            can_clean(source@, env@),
        ensures
            res@.function == function@,
            res@.span == clean_span_spec(source@, env@),
            res@.workspace == match workspace {
                Some(w) => Some(w@),
                None => None::<Seq<char>>,
            },
            res@.crate_name == crate_name@,
    {
        InvocData { function, span: clean_span(source, env), workspace, crate_name }
    }

    /// The function being invoked.
    pub fn function(&self) -> (res: &str)
        ensures
            res@ == self@.function,
    {
        self.function.as_str()
    }

    /// The cleaned span of the invocation.
    pub fn span(&self) -> (res: &str)
        ensures
            res@ == self@.span,
    {
        self.span.as_str()
    }

    /// The workspace of the invocation.
    pub fn workspace(&self) -> (res: &Option<String>)
        ensures
            res.deep_view() == self@.workspace,
    {
        &self.workspace
    }

    /// The crate of the invocation.
    pub fn crate_name(&self) -> (res: &str)
        ensures
            res@ == self@.crate_name,
    {
        self.crate_name.as_str()
    }
}

/// Setting a property twice leaves the later value; other properties stay.
pub proof fn lemma_property_last_wins(p: ParamDataView, key: Seq<char>, first: bool, second: bool)
    ensures
        p.properties.insert(key, first).insert(key, second) == p.properties.insert(key, second),
{
    assert(p.properties.insert(key, first).insert(key, second) =~= p.properties.insert(key, second));
}

/// Setting properties under two different names gives the same result in either order.
pub proof fn lemma_properties_commute(p: ParamDataView, k1: Seq<char>, v1: bool, k2: Seq<char>, v2: bool)
    requires
        k1 != k2,
    ensures
        p.properties.insert(k1, v1).insert(k2, v2) == p.properties.insert(k2, v2).insert(k1, v1),
{
    assert(p.properties.insert(k1, v1).insert(k2, v2) =~= p.properties.insert(k2, v2).insert(k1, v1));
}

} // verus!
