//! The messages that pass between a client and a server endpoint.

use vstd::prelude::*;
use vstd::string::*;
use crate::arguments::Arguments;
use crate::content::{ContentView, ToolResult};
use crate::descriptor::{descriptor_views, DescriptorView, ToolDescriptor};
use crate::executor::{invoke, invoke_spec, InvocationError, InvocationErrorView, Reason};
use crate::handler::{FailureView, HandlerFailure, ToolHandler};
use crate::registry::{descriptors, EntryView, ToolRegistry};
use crate::value::ValueView;

verus! {

/// The stable code that tells the kinds of failure apart on the wire.
#[derive(Clone, Copy, Debug, PartialEq, Eq, Structural)]
pub enum ErrorCode {
    NotFound,
    InvalidArgument,
    HandlerError,
    Internal,
    Cancelled,
}

/// The feature flags that the two sides tell each other.
#[derive(Clone, Copy, Debug, PartialEq, Eq, Structural)]
pub struct Capabilities {
    /// Whether the tool list can change after initialization.
    pub list_changed: bool,
}

/// What one side says of itself in the capability negotiation.
#[derive(Debug, PartialEq, Eq)]
pub struct Peer {
    pub name: String,
    pub version: String,
    pub capabilities: Capabilities,
}

/// The mathematical content of a [`Peer`].
pub struct PeerView {
    pub name: Seq<char>,
    pub version: Seq<char>,
    pub capabilities: Capabilities,
}

impl View for Peer {
    type V = PeerView;

    open spec fn view(&self) -> PeerView {
        PeerView { name: self.name@, version: self.version@, capabilities: self.capabilities }
    }
}

impl Peer {
    /// A side with the given name, version and capabilities.
    pub fn new(name: &str, version: &str, capabilities: Capabilities) -> (p: Peer)
        ensures
            p@ == (PeerView { name: name@, version: version@, capabilities }),
    {
        Peer { name: String::from_str(name), version: String::from_str(version), capabilities }
    }
}

impl Clone for Peer {
    fn clone(&self) -> (r: Self)
        ensures
            r@ == self@,
    {
        Peer {
            name: self.name.clone(),
            version: self.version.clone(),
            capabilities: self.capabilities,
        }
    }
}

/// What a client asks of a server.
#[derive(Debug, PartialEq, Eq)]
pub enum Request {
    /// "Which tools are there?"
    Discovery,
    /// "Run this tool on these arguments."
    Invocation { name: String, arguments: Arguments },
}

/// The mathematical content of a [`Request`].
pub enum RequestView {
    Discovery,
    Invocation { name: Seq<char>, arguments: Seq<(Seq<char>, ValueView)> },
}

impl View for Request {
    type V = RequestView;

    open spec fn view(&self) -> RequestView {
        match *self {
            Request::Discovery => RequestView::Discovery,
            Request::Invocation { name, arguments } => RequestView::Invocation {
                name: name@,
                arguments: arguments@,
            },
        }
    }
}

/// What a server answers.
#[derive(Debug, PartialEq, Eq)]
pub enum Response {
    /// The descriptors of the registered tools, in registration order.
    Tools(Vec<ToolDescriptor>),
    /// The result of a successful invocation.
    Content(ToolResult),
    /// A failure, with its code and a message for people.
    Error { code: ErrorCode, message: String },
}

/// The mathematical content of a [`Response`].
pub enum ResponseView {
    Tools(Seq<DescriptorView>),
    Content(Seq<ContentView>),
    Error { code: ErrorCode, message: Seq<char> },
}

impl View for Response {
    type V = ResponseView;

    open spec fn view(&self) -> ResponseView {
        match *self {
            Response::Tools(tools) => ResponseView::Tools(descriptor_views(tools@)),
            Response::Content(result) => ResponseView::Content(result@),
            Response::Error { code, message } => ResponseView::Error { code, message: message@ },
        }
    }
}

/// The code under which an invocation failure travels.
pub open spec fn code_of(e: InvocationErrorView) -> ErrorCode {
    match e {
        InvocationErrorView::NotFound { .. } => ErrorCode::NotFound,
        InvocationErrorView::InvalidArgument { .. } => ErrorCode::InvalidArgument,
        InvocationErrorView::Handler(_) => ErrorCode::HandlerError,
    }
}

/// The words for what is wrong with an argument.
pub open spec fn reason_words(reason: Reason) -> Seq<char> {
    match reason {
        Reason::Missing => "is required and missing"@,
        Reason::WrongKind => "is not of the declared kind"@,
        Reason::Unknown => "is not a declared parameter"@,
    }
}

/// The words for why a handler failed.
pub open spec fn failure_words(e: FailureView) -> Seq<char> {
    match e {
        FailureView::Overflow => "arithmetic overflow"@,
        FailureView::BadArguments => "the handler cannot work on these arguments"@,
        FailureView::Failed(words) => words,
    }
}

/// The message that goes with an invocation failure.
pub open spec fn message_of(e: InvocationErrorView) -> Seq<char> {
    match e {
        InvocationErrorView::NotFound { name } => "tool not found: "@ + name,
        InvocationErrorView::InvalidArgument { parameter, reason } => "argument "@ + parameter
            + " "@ + reason_words(reason),
        InvocationErrorView::Handler(e) => "handler failed: "@ + failure_words(e),
    }
}

/// The answer to `request` from a server that offers `reg`.
pub open spec fn answer<H: ToolHandler>(reg: Seq<EntryView<H>>, request: RequestView)
    -> ResponseView {
    match request {
        RequestView::Discovery => ResponseView::Tools(descriptors(reg)),
        RequestView::Invocation { name, arguments } => match invoke_spec(reg, name, arguments) {
            Ok(content) => ResponseView::Content(content),
            Err(e) => ResponseView::Error { code: code_of(e), message: message_of(e) },
        },
    }
}

/// The answer that every request in flight gets when its connection goes
/// away.
pub open spec fn cancelled_view() -> ResponseView {
    ResponseView::Error { code: ErrorCode::Cancelled, message: "cancelled"@ }
}

impl InvocationError {
    /// The code under which this failure travels.
    pub fn code(&self) -> (c: ErrorCode)
        ensures
            c == code_of(self@),
    {
        match self {
            InvocationError::NotFound { .. } => ErrorCode::NotFound,
            InvocationError::InvalidArgument { .. } => ErrorCode::InvalidArgument,
            InvocationError::Handler(_) => ErrorCode::HandlerError,
        }
    }

    /// The message that goes with this failure.
    pub fn message(&self) -> (s: String)
        ensures
            s@ == message_of(self@),
    {
        match self {
            InvocationError::NotFound { name } => {
                let mut s = String::from_str("tool not found: ");
                s.append(name.as_str());
                s
            },
            InvocationError::InvalidArgument { parameter, reason } => {
                let mut s = String::from_str("argument ");
                s.append(parameter.as_str());
                s.append(" ");
                let words = match reason {
                    Reason::Missing => "is required and missing",
                    Reason::WrongKind => "is not of the declared kind",
                    Reason::Unknown => "is not a declared parameter",
                };
                s.append(words);
                s
            },
            InvocationError::Handler(e) => {
                let mut s = String::from_str("handler failed: ");
                match e {
                    HandlerFailure::Overflow => s.append("arithmetic overflow"),
                    HandlerFailure::BadArguments => s.append(
                        "the handler cannot work on these arguments",
                    ),
                    HandlerFailure::Failed(words) => s.append(words.as_str()),
                }
                s
            },
        }
    }
}

impl Response {
    /// The answer that every request in flight gets when its connection goes
    /// away.
    pub fn cancelled() -> (r: Response)
        ensures
            r@ == cancelled_view(),
    {
        Response::Error { code: ErrorCode::Cancelled, message: String::from_str("cancelled") }
    }
}

/// Answers `request` from `registry`: a discovery with the listing, an
/// invocation with what the executor returns.
pub fn serve<H: ToolHandler>(registry: &ToolRegistry<H>, request: &Request) -> (r: Response)
    ensures
        r@ == answer(registry@, request@),
{
    match request {
        Request::Discovery => Response::Tools(registry.list()),
        Request::Invocation { name, arguments } => {
            match invoke(registry, name.as_str(), arguments) {
                Ok(result) => Response::Content(result),
                Err(e) => Response::Error { code: e.code(), message: e.message() },
            }
        },
    }
}

} // verus!
