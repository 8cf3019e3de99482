use vstd::prelude::*;

verus! {

/// The calling convention of a function, as far as the analyses tell them apart.
#[derive(Clone, Copy, Debug, PartialEq, Eq, Structural)]
pub enum Abi {
    /// The Rust calling convention.
    Rust,
    /// The C calling convention, with or without unwinding.
    C { unwind: bool },
    /// Any other calling convention.
    Other,
}

/// A parameter of a function: the text of its type, and whether that type
/// is a mutable raw pointer (`*mut T`).
#[derive(Debug, Clone, PartialEq)]
pub struct ParamInfo {
    pub ty: String,
    pub is_mutable_ptr: bool,
}

/// The texts of the parameter types, in order.
pub open spec fn param_texts(params: Seq<ParamInfo>) -> Seq<Seq<char>> {
    params.map_values(|p: ParamInfo| p.ty@)
}

/// The texts of the parameter types, in order.
pub fn param_type_texts(params: &Vec<ParamInfo>) -> (res: Vec<String>)
    ensures
        res.deep_view() == param_texts(params@),
{
    let mut res: Vec<String> = Vec::new();
    let n = params.len();
    let mut i: usize = 0;
    while i < n
        invariant
            n == params@.len(),
            i <= n,
            res.deep_view() == param_texts(params@.take(i as int)),
        decreases n - i,
    {
        res.push(params[i].ty.clone());
        assert(param_texts(params@.take(i + 1)) =~= param_texts(params@.take(i as int)).push(
            params@[i as int].ty@,
        ));
        assert(res.deep_view() =~= param_texts(params@.take(i + 1)));
        i = i + 1;
    }
    assert(params@.take(n as int) =~= params@);
    res
}

/// The signature of a function as the type checker gives it.
#[derive(Debug, Clone)]
pub struct FnSignature {
    pub abi: Abi,
    pub safe: bool,
    /// The parameters, in order.
    pub params: Vec<ParamInfo>,
}

/// What the type checker says about the type of a callee expression.
#[derive(Debug, Clone)]
pub enum CalleeType {
    /// The expression has no recorded type.
    Untyped,
    /// The expression has a type other than a function item type.
    NotFnDef,
    /// The expression has a function item type with this signature.
    FnDef(FnSignature),
}

/// A callee that resolves to a function definition.
#[derive(Debug, Clone)]
pub struct Callee {
    /// The path of the function.
    pub name: String,
    /// The crate that defines the function.
    pub krate: String,
    /// The debug text of the span where the function is defined.
    pub span: String,
    pub ty: CalleeType,
}

/// A call expression met while walking a crate.
#[derive(Debug, Clone)]
pub struct CallSite {
    /// The expression sits in the body of a function-like item.
    pub in_fn_body: bool,
    /// The callee, where it is a path that resolves to a function definition.
    pub callee: Option<Callee>,
    /// The debug text of the span of the callee expression.
    pub span: String,
}

/// How far a call site gets through the checks that precede recording it.
#[derive(Clone, Copy, Debug, PartialEq, Eq, Structural)]
pub enum CallCheck {
    /// Not in a function body, or not a call of a function definition.
    Ignored,
    /// The callee has no recorded type.
    Untyped,
    /// The callee's type is not a function item type.
    NotFnDef,
    /// The callee is a function with a known signature.
    Typed,
}

/// The result of the checks for a call site.
pub open spec fn call_check_spec(site: CallSite) -> CallCheck {
    if !site.in_fn_body {
        CallCheck::Ignored
    } else {
        match site.callee {
            None => CallCheck::Ignored,
            Some(c) => match c.ty {
                CalleeType::Untyped => CallCheck::Untyped,
                CalleeType::NotFnDef => CallCheck::NotFnDef,
                CalleeType::FnDef(_) => CallCheck::Typed,
            },
        }
    }
}

/// The callee of a call site that passes all checks.
pub open spec fn typed_callee(site: CallSite) -> Callee {
    site.callee->0
}

/// The signature of the callee of a call site that passes all checks.
pub open spec fn typed_signature(site: CallSite) -> FnSignature {
    site.callee->0.ty->FnDef_0
}

/// Runs the checks that precede recording a call: the call must sit in a
/// function-like body, its callee must be a path to a function definition,
/// and that callee must have a function item type.
pub fn check_call(site: &CallSite) -> (res: CallCheck)
    ensures
        res == call_check_spec(*site),
{
    if !site.in_fn_body {
        return CallCheck::Ignored;
    }
    match &site.callee {
        None => CallCheck::Ignored,
        Some(c) => match &c.ty {
            CalleeType::Untyped => CallCheck::Untyped,
            CalleeType::NotFnDef => CallCheck::NotFnDef,
            CalleeType::FnDef(_) => CallCheck::Typed,
        },
    }
}

/// The shape of an expression, as far as the walks tell them apart.
#[derive(Clone, Copy, Debug, PartialEq, Eq, Structural)]
pub enum ExprShape {
    /// A call expression.
    Call,
    /// A `loop` (which `while` and `for` loops become).
    Loop,
    /// Any other expression.
    Other,
}

/// What a walk does at an expression.
#[derive(Clone, Copy, Debug, PartialEq, Eq, Structural)]
pub enum VisitPlan {
    /// Hand the call to the analyzer, then walk its subexpressions (callee
    /// and arguments), so that calls inside the arguments are met too.
    HandleCallThenWalk,
    /// Walk the subexpressions one loop level deeper.
    WalkInLoop,
    /// Walk the subexpressions.
    WalkChildren,
}

} // verus!
