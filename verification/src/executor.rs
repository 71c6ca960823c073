//! The invocation executor: look the tool up, check the arguments against
//! its declared parameters, run the handler, wrap what it returned.

use vstd::prelude::*;
use vstd::string::*;
use crate::arguments::{value_of, Arguments};
use crate::content::{ContentBlock, ContentView, ToolResult};
use crate::decimal::{decimal, render};
use crate::descriptor::{parameter_views, DescriptorView, ParameterView, ToolDescriptor};
use crate::handler::{outcome_view, FailureView, HandlerFailure, ToolHandler};
use crate::registry::{find, EntryView, ToolRegistry};
use crate::search::{first_index, first_true, is_first, lemma_first_absent, lemma_first_found};
use crate::value::{Value, ValueView};

verus! {

/// What is wrong with an argument.
#[derive(Clone, Copy, Debug, PartialEq, Eq, Structural)]
pub enum Reason {
    /// A required parameter has no value.
    Missing,
    /// The value is not of the declared kind.
    WrongKind,
    /// The key names no declared parameter.
    Unknown,
}

/// Why an invocation failed.
#[derive(Debug, PartialEq, Eq)]
pub enum InvocationError {
    /// No tool of that name is registered.
    NotFound { name: String },
    /// The arguments do not fit the tool's parameters.
    InvalidArgument { parameter: String, reason: Reason },
    /// The handler ran and failed.
    Handler(HandlerFailure),
}

/// The mathematical content of an [`InvocationError`].
pub enum InvocationErrorView {
    NotFound { name: Seq<char> },
    InvalidArgument { parameter: Seq<char>, reason: Reason },
    Handler(FailureView),
}

impl View for InvocationError {
    type V = InvocationErrorView;

    open spec fn view(&self) -> InvocationErrorView {
        match *self {
            InvocationError::NotFound { name } => InvocationErrorView::NotFound { name: name@ },
            InvocationError::InvalidArgument { parameter, reason } => {
                InvocationErrorView::InvalidArgument { parameter: parameter@, reason }
            },
            InvocationError::Handler(e) => InvocationErrorView::Handler(e@),
        }
    }
}

/// What is wrong with the value, or the absence of a value, that `args`
/// gives to the declared parameter `p`.
pub open spec fn violation(p: ParameterView, args: Seq<(Seq<char>, ValueView)>) -> Option<Reason> {
    match value_of(args, p.name) {
        None => if p.required {
            Some(Reason::Missing)
        } else {
            None
        },
        Some(v) => if v.kind() == p.kind {
            None
        } else {
            Some(Reason::WrongKind)
        },
    }
}

/// For each declared parameter, whether `args` violates it.
pub open spec fn declared_faults(
    params: Seq<ParameterView>,
    args: Seq<(Seq<char>, ValueView)>,
) -> Seq<bool> {
    Seq::new(params.len(), |i: int| violation(params[i], args) is Some)
}

/// For each argument, whether its key names no declared parameter.
pub open spec fn unknown_keys(d: DescriptorView, args: Seq<(Seq<char>, ValueView)>) -> Seq<bool> {
    Seq::new(args.len(), |k: int| first_index(d.parameter_names(), args[k].0) is None)
}

/// The first thing wrong with `args`: the declared parameters are checked in
/// declaration order, then the keys that name no parameter, in argument
/// order. `None` when the arguments are valid.
pub open spec fn first_fault(d: DescriptorView, args: Seq<(Seq<char>, ValueView)>) -> Option<
    (Seq<char>, Reason),
> {
    match first_true(declared_faults(d.parameters, args)) {
        Some(i) => Some((d.parameters[i].name, violation(d.parameters[i], args)->Some_0)),
        None => match first_true(unknown_keys(d, args)) {
            Some(k) => Some((args[k].0, Reason::Unknown)),
            None => None,
        },
    }
}

/// The result that carries a handler's value: a number as its decimal text,
/// a text as it is, anything else as data; always exactly one block.
pub open spec fn wrap(v: ValueView) -> Seq<ContentView> {
    match v {
        ValueView::Number(n) => seq![ContentView::Text(decimal(n))],
        ValueView::Text(s) => seq![ContentView::Text(s)],
        ValueView::Flag(b) => seq![ContentView::Data(ValueView::Flag(b))],
    }
}

/// What an invocation returns once the handler has returned `outcome`.
pub open spec fn concluded(outcome: Result<ValueView, FailureView>) -> Result<
    Seq<ContentView>,
    InvocationErrorView,
> {
    match outcome {
        Ok(v) => Ok(wrap(v)),
        Err(e) => Err(InvocationErrorView::Handler(e)),
    }
}

/// What invoking `name` with `args` returns.
pub open spec fn invoke_spec<H: ToolHandler>(
    reg: Seq<EntryView<H>>,
    name: Seq<char>,
    args: Seq<(Seq<char>, ValueView)>,
) -> Result<Seq<ContentView>, InvocationErrorView> {
    match find(reg, name) {
        None => Err(InvocationErrorView::NotFound { name }),
        Some(i) => match first_fault(reg[i].descriptor, args) {
            Some((parameter, reason)) => Err(
                InvocationErrorView::InvalidArgument { parameter, reason },
            ),
            None => concluded(reg[i].handler.outcome(args)),
        },
    }
}

/// The mathematical content of what an invocation returned.
pub open spec fn result_view(r: Result<ToolResult, InvocationError>) -> Result<
    Seq<ContentView>,
    InvocationErrorView,
> {
    match r {
        Ok(t) => Ok(t@),
        Err(e) => Err(e@),
    }
}

/// Checks `args` against the parameters that `descriptor` declares and
/// reports the first fault.
pub fn validate(descriptor: &ToolDescriptor, args: &Arguments) -> (r: Result<(), InvocationError>)
    ensures
        match r {
            Ok(_) => first_fault(descriptor@, args@) is None,
            Err(e) => first_fault(descriptor@, args@) matches Some((parameter, reason)) && e@
                == (InvocationErrorView::InvalidArgument { parameter, reason }),
        },
{
    let params = descriptor.parameters();
    let ghost declared = declared_faults(descriptor@.parameters, args@);
    let mut i: usize = 0;
    while i < params.len()
        invariant
            i <= params@.len(),
            parameter_views(params@) == descriptor@.parameters,
            declared == declared_faults(descriptor@.parameters, args@),
            forall|j: int| 0 <= j < i ==> !declared[j],
        decreases params@.len() - i,
    {
        let p = &params[i];
        assert(p@ == descriptor@.parameters[i as int]);
        let fault = match args.get(p.name.as_str()) {
            None => if p.required {
                Some(Reason::Missing)
            } else {
                None
            },
            Some(v) => if v.kind() == p.kind {
                None
            } else {
                Some(Reason::WrongKind)
            },
        };
        assert(fault == violation(p@, args@));
        match fault {
            Some(reason) => {
                proof {
                    assert(is_first(declared, i as int));
                    lemma_first_found(declared, i as int);
                }
                return Err(InvocationError::InvalidArgument { parameter: p.name.clone(), reason });
            },
            None => {},
        }
        i += 1;
    }
    proof {
        lemma_first_absent(declared);
    }
    let ghost unknown = unknown_keys(descriptor@, args@);
    let n = args.len();
    let mut k: usize = 0;
    while k < n
        invariant
            k <= n,
            n == args@.len(),
            first_true(declared) is None,
            declared == declared_faults(descriptor@.parameters, args@),
            unknown == unknown_keys(descriptor@, args@),
            forall|j: int| 0 <= j < k ==> !unknown[j],
        decreases n - k,
    {
        match args.entry(k) {
            Some((key, _)) => {
                if !descriptor.declares(key) {
                    proof {
                        assert(is_first(unknown, k as int));
                        lemma_first_found(unknown, k as int);
                    }
                    return Err(
                        InvocationError::InvalidArgument {
                            parameter: String::from_str(key),
                            reason: Reason::Unknown,
                        },
                    );
                }
            },
            None => {},
        }
        k += 1;
    }
    proof {
        lemma_first_absent(unknown);
    }
    Ok(())
}

/// Wraps a handler's value into a result.
pub fn wrap_value(value: Value) -> (r: ToolResult)
    ensures
        r@ == wrap(value@),
{
    match value {
        Value::Number(n) => ToolResult::single(ContentBlock::Text(render(n))),
        Value::Text(s) => ToolResult::single(ContentBlock::Text(s)),
        Value::Flag(b) => ToolResult::single(ContentBlock::Data(Value::Flag(b))),
    }
}

/// Turns what a handler returned into what the invocation returns: a value
/// is wrapped, a failure is surfaced as it is.
pub fn conclude(outcome: Result<Value, HandlerFailure>) -> (r: Result<ToolResult, InvocationError>)
    ensures
        result_view(r) == concluded(outcome_view(outcome)),
{
    match outcome {
        Ok(v) => Ok(wrap_value(v)),
        Err(e) => Err(InvocationError::Handler(e)),
    }
}

/// Invokes the tool registered under `name` with `args`.
pub fn invoke<H: ToolHandler>(registry: &ToolRegistry<H>, name: &str, args: &Arguments) -> (r:
    Result<ToolResult, InvocationError>)
    ensures
        result_view(r) == invoke_spec(registry@, name@, args@),
{
    match registry.get(name) {
        Err(e) => Err(InvocationError::NotFound { name: e.name }),
        Ok((descriptor, handler)) => {
            match validate(descriptor, args) {
                Err(e) => Err(e),
                Ok(_) => conclude(handler.call(args)),
            }
        },
    }
}

/// A successful invocation returns exactly one block: no result is empty.
pub proof fn lemma_result_has_content<H: ToolHandler>(
    reg: Seq<EntryView<H>>,
    name: Seq<char>,
    args: Seq<(Seq<char>, ValueView)>,
)
    ensures
        invoke_spec(reg, name, args) matches Ok(content) ==> content.len() == 1,
{
}

} // verus!
