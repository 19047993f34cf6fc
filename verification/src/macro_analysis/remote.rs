//! The `remote` macro: which functions it accepts, and the shape of the
//! module it generates for each (the submitting function and the
//! registration of the task function).

use super::desc::{macro_error, ErrorSpan, MacroError, ParamDesc, TypeDesc};
use super::types::{
    extract_result_ok_type, is_object_ref, is_object_ref_type, is_result, is_result_type,
    result_ok_type,
};
use vstd::prelude::*;

verus! {

/// A function signature, as the `remote` macro looks at it.
pub struct FnSigDesc {
    pub name: String,
    pub has_receiver: bool,
    pub is_const: bool,
    pub is_unsafe: bool,
    pub is_async: bool,
    pub lifetime_count: usize,
    pub generic_param_count: usize,
    /// The typed parameters, in order.
    pub params: Vec<ParamDesc>,
    /// The return type; none for `()`.
    pub output: Option<TypeDesc>,
}

/// Why a function cannot be made remote, if it cannot: the first of these
/// that applies.
pub open spec fn remote_rejection(sig: FnSigDesc) -> Option<(ErrorSpan, Seq<char>)> {
    if sig.has_receiver {
        Some((ErrorSpan::Name, "#[remote] cannot be used on methods with self parameter"@))
    } else if sig.is_const {
        Some((ErrorSpan::Constness, "#[remote] functions cannot be const"@))
    } else if sig.is_unsafe {
        Some((ErrorSpan::Unsafety, "#[remote] functions cannot be unsafe"@))
    } else if sig.lifetime_count > 0 {
        Some((ErrorSpan::Generics, "#[remote] functions cannot have lifetime parameters"@))
    } else if sig.generic_param_count > 0 {
        Some((ErrorSpan::Generics, "#[remote] functions cannot have generic parameters (yet)"@))
    } else {
        None
    }
}

/// Checks that a function can be made remote: no `self`, not `const`, not
/// `unsafe`, no lifetime or generic parameters.
pub fn validate_remote_function(sig: &FnSigDesc) -> (r: Result<(), MacroError>)
    ensures
        r is Ok <==> remote_rejection(*sig) is None,
        r matches Err(e) ==> (remote_rejection(*sig) matches Some(rej) && e.span == rej.0
            && e.message@ == rej.1),
{
    if sig.has_receiver {
        return Err(macro_error(ErrorSpan::Name, "#[remote] cannot be used on methods with self parameter"));
    }
    if sig.is_const {
        return Err(macro_error(ErrorSpan::Constness, "#[remote] functions cannot be const"));
    }
    if sig.is_unsafe {
        return Err(macro_error(ErrorSpan::Unsafety, "#[remote] functions cannot be unsafe"));
    }
    if sig.lifetime_count > 0 {
        return Err(macro_error(ErrorSpan::Generics, "#[remote] functions cannot have lifetime parameters"));
    }
    if sig.generic_param_count > 0 {
        return Err(macro_error(ErrorSpan::Generics, "#[remote] functions cannot have generic parameters (yet)"));
    }
    Ok(())
}

/// How the submitting function passes a parameter to the task builder.
#[derive(Debug, Clone, Copy, PartialEq, Eq, Structural)]
pub enum ArgCall {
    /// `.arg(x)`: the value is serialized.
    Value,
    /// `.arg_ref(&x)`: the object reference becomes a dependency.
    Ref,
}

/// What the remote function returns, and what its object reference holds.
#[derive(Debug, Clone, Copy, PartialEq, Eq, Structural)]
pub enum ReturnPlan {
    /// Nothing: `()`.
    Unit,
    /// A plain type (by origin); the task wraps it in `Ok`.
    Plain(usize),
    /// A `Result`; the reference holds its `Ok` type (by origin), or `()`
    /// if that cannot be found.
    Fallible(Option<usize>),
}

/// The generated module for a remote function.
#[derive(Debug)]
pub struct RemotePlan {
    /// The module's name: the function's name followed by `_remote`.
    pub module_name: String,
    /// How each parameter is passed, in order.
    pub arg_calls: Vec<ArgCall>,
    /// What the function returns.
    pub returns: ReturnPlan,
    /// Whether the task gets resource requirements.
    pub emit_resources: bool,
}

/// The first parameter whose pattern is not a plain identifier.
pub open spec fn first_unnamed(params: Seq<ParamDesc>) -> Option<int> {
    if exists|i: int| 0 <= i < params.len() && params[i].name is None {
        Some(choose|i: int| 0 <= i < params.len() && params[i].name is None
            && forall|j: int| 0 <= j < i ==> params[j].name is Some)
    } else {
        None
    }
}

/// How a parameter of type `t` is passed.
pub open spec fn arg_call_for(t: TypeDesc) -> ArgCall {
    if is_object_ref(t) {
        ArgCall::Ref
    } else {
        ArgCall::Value
    }
}

/// What a function with return type `output` returns.
pub open spec fn return_plan_for(output: Option<TypeDesc>) -> ReturnPlan {
    match output {
        None => ReturnPlan::Unit,
        Some(t) => if is_result(t) {
            ReturnPlan::Fallible(
                match result_ok_type(t) {
                    Some(ok) => Some(ok.origin),
                    None => None,
                },
            )
        } else {
            ReturnPlan::Plain(t.origin)
        },
    }
}

/// How the function returns, as the generated code sees it.
pub fn plan_return(output: &Option<TypeDesc>) -> (r: ReturnPlan)
    ensures
        r == return_plan_for(*output),
{
    match output {
        None => ReturnPlan::Unit,
        Some(t) => {
            if is_result_type(t) {
                match extract_result_ok_type(t) {
                    Some(ok) => ReturnPlan::Fallible(Some(ok.origin)),
                    None => ReturnPlan::Fallible(None),
                }
            } else {
                ReturnPlan::Plain(t.origin)
            }
        },
    }
}

/// Plans the module that the `remote` macro generates for a function: the
/// function must pass validation and name every parameter with a plain
/// identifier. Resource requirements are set when `num_cpus` or `num_gpus`
/// was given.
pub fn plan_remote(sig: &FnSigDesc, cpus_given: bool, gpus_given: bool) -> (r: Result<RemotePlan, MacroError>)
    ensures
        remote_rejection(*sig) matches Some(rej) ==> (r matches Err(e) && e.span == rej.0 && e.message@ == rej.1),
        remote_rejection(*sig) is None ==> (match first_unnamed(sig.params@) {
            Some(i) => r matches Err(e) && e.span == ErrorSpan::Param(i as usize)
                && e.message@ == "Remote functions must use simple identifiers for parameters"@,
            None => r matches Ok(p)
                && p.module_name@ == sig.name@ + "_remote"@
                && p.arg_calls@.len() == sig.params@.len()
                && (forall|i: int| 0 <= i < sig.params@.len() ==> #[trigger] p.arg_calls@[i] == arg_call_for(sig.params@[i].ty))
                && p.returns == return_plan_for(sig.output)
                && p.emit_resources == (cpus_given || gpus_given),
        }),
{
    match validate_remote_function(sig) {
        Ok(()) => {},
        Err(e) => return Err(e),
    }
    let mut calls: Vec<ArgCall> = Vec::new();
    let mut i: usize = 0;
    while i < sig.params.len()
        invariant
            remote_rejection(*sig) is None,
            i <= sig.params@.len(),
            calls@.len() == i,
            forall|j: int| 0 <= j < i ==> sig.params@[j].name is Some,
            forall|j: int| 0 <= j < i ==> #[trigger] calls@[j] == arg_call_for(sig.params@[j].ty),
        decreases sig.params@.len() - i,
    {
        let param = &sig.params[i];
        if param.name.is_none() {
            proof {
                assert(first_unnamed(sig.params@) == Some(i as int)) by {
                    let k = choose|k: int| 0 <= k < sig.params@.len() && sig.params@[k].name is None
                        && forall|j: int| 0 <= j < k ==> sig.params@[j].name is Some;
                    if k < i {
                        assert(sig.params@[k].name is Some);
                    }
                    if k > i {
                        assert(sig.params@[i as int].name is Some);
                    }
                }
            }
            return Err(macro_error(ErrorSpan::Param(i), "Remote functions must use simple identifiers for parameters"));
        }
        let call = if is_object_ref_type(&param.ty) { ArgCall::Ref } else { ArgCall::Value };
        calls.push(call);
        i = i + 1;
    }
    let mut module_name = sig.name.clone();
    module_name.append("_remote");
    Ok(RemotePlan {
        module_name,
        arg_calls: calls,
        returns: plan_return(&sig.output),
        emit_resources: cpus_given || gpus_given,
    })
}

} // verus!
