//! Tool handlers: what runs when a tool is invoked.

use vstd::prelude::*;
use vstd::string::*;
use crate::arguments::Arguments;
use crate::value::{Value, ValueView};

verus! {

/// Why a handler failed.
#[derive(Debug, PartialEq, Eq)]
pub enum HandlerFailure {
    /// The result does not fit the number type.
    Overflow,
    /// The arguments are not the ones the handler works on.
    BadArguments,
    /// Any other cause, in the handler's words.
    Failed(String),
}

/// The mathematical content of a [`HandlerFailure`].
pub enum FailureView {
    Overflow,
    BadArguments,
    Failed(Seq<char>),
}

impl View for HandlerFailure {
    type V = FailureView;

    open spec fn view(&self) -> FailureView {
        match *self {
            HandlerFailure::Overflow => FailureView::Overflow,
            HandlerFailure::BadArguments => FailureView::BadArguments,
            HandlerFailure::Failed(s) => FailureView::Failed(s@),
        }
    }
}

impl Clone for HandlerFailure {
    fn clone(&self) -> (r: Self)
        ensures
            r@ == self@,
    {
        match self {
            HandlerFailure::Overflow => HandlerFailure::Overflow,
            HandlerFailure::BadArguments => HandlerFailure::BadArguments,
            HandlerFailure::Failed(s) => HandlerFailure::Failed(s.clone()),
        }
    }
}

/// The mathematical content of what a handler returned.
pub open spec fn outcome_view(r: Result<Value, HandlerFailure>) -> Result<ValueView, FailureView> {
    match r {
        Ok(v) => Ok(v@),
        Err(e) => Err(e@),
    }
}

/// The capability behind a tool. A handler is a function of the arguments:
/// `outcome` says which, and `call` computes it.
pub trait ToolHandler {
    /// What the handler returns on `args`.
    spec fn outcome(&self, args: Seq<(Seq<char>, ValueView)>) -> Result<ValueView, FailureView>;

    /// Runs the handler.
    fn call(&self, args: &Arguments) -> (r: Result<Value, HandlerFailure>)
        ensures
            outcome_view(r) == self.outcome(args@),
    ;
}

} // verus!
