//! The agent bridge: the tools that a prompt-driven caller may select, and
//! the path of one selected call through the client handle.

use vstd::prelude::*;
use vstd::string::*;
use crate::arguments::Arguments;
use crate::client::{error_words, invocation_view, request_view, ClientError, ClientErrorView,
    ClientHandle};
use crate::content::{joined, ContentView, ToolResult};
use crate::descriptor::{descriptor_views, DescriptorView, ToolDescriptor};
use crate::handler::ToolHandler;
use crate::protocol::{Request, RequestView};
use crate::search::{first_index, is_first, lemma_first_absent, lemma_first_found, occurrences};
use crate::server::ServerEndpoint;
use crate::session::{invoke, invoke_through};

verus! {

/// The names of a run of descriptors, in order.
pub open spec fn names_of(tools: Seq<DescriptorView>) -> Seq<Seq<char>> {
    Seq::new(tools.len(), |i: int| tools[i].name)
}

/// Whether a tool called `name` is among `tools`.
pub open spec fn offers(tools: Seq<DescriptorView>, name: Seq<char>) -> bool {
    first_index(names_of(tools), name) is Some
}

/// What is fed back to the caller after a call: the result's text, or the
/// failure put into words. There is a text for every outcome.
pub open spec fn feedback_of(outcome: Result<Seq<ContentView>, ClientErrorView>) -> Seq<char> {
    match outcome {
        Ok(blocks) => joined(blocks),
        Err(e) => "error: "@ + error_words(e),
    }
}

/// What is fed back to the caller after a call.
pub fn feedback(outcome: &Result<ToolResult, ClientError>) -> (s: String)
    ensures
        s@ == feedback_of(invocation_view(*outcome)),
{
    match outcome {
        Ok(result) => result.to_text(),
        Err(e) => {
            let mut s = String::from_str("error: ");
            let words = e.message();
            s.append(words.as_str());
            s
        },
    }
}

/// The tools bound for a prompt-driven caller, in the order in which they
/// were bound.
#[derive(Debug, PartialEq, Eq)]
pub struct AgentBridge {
    bound: Vec<ToolDescriptor>,
}

impl View for AgentBridge {
    type V = Seq<DescriptorView>;

    closed spec fn view(&self) -> Seq<DescriptorView> {
        descriptor_views(self.bound@)
    }
}

impl AgentBridge {
    /// A bridge with nothing bound.
    pub fn new() -> (b: AgentBridge)
        ensures
            b@ == Seq::<DescriptorView>::empty(),
    {
        let b = AgentBridge { bound: Vec::new() };
        assert(b@ =~= Seq::empty());
        b
    }

    /// The same bridge with each of `tools` bound after what was bound
    /// before, in the order of `tools`.
    pub fn bind_tools(self, tools: &Vec<ToolDescriptor>) -> (b: AgentBridge)
        ensures
            b@ == self@ + descriptor_views(tools@),
    {
        let ghost before = self@;
        let mut bound = self.bound;
        let mut i: usize = 0;
        assert(descriptor_views(tools@).take(0) =~= Seq::empty());
        assert(before + Seq::<DescriptorView>::empty() =~= before);
        while i < tools.len()
            invariant
                i <= tools@.len(),
                descriptor_views(bound@) == before + descriptor_views(tools@).take(i as int),
            decreases tools@.len() - i,
        {
            let ghost so_far = descriptor_views(bound@);
            bound.push(tools[i].clone());
            assert(descriptor_views(bound@) =~= so_far.push(tools@[i as int]@));
            assert(descriptor_views(tools@).take(i + 1) =~= descriptor_views(tools@).take(
                i as int,
            ).push(tools@[i as int]@));
            assert(before + descriptor_views(tools@).take(i + 1) =~= so_far.push(
                tools@[i as int]@,
            ));
            i += 1;
        }
        assert(descriptor_views(tools@).take(tools@.len() as int) =~= descriptor_views(tools@));
        AgentBridge { bound }
    }

    /// The bound tools, in binding order.
    pub fn bindings(&self) -> (r: &Vec<ToolDescriptor>)
        ensures
            descriptor_views(r@) == self@,
    {
        &self.bound
    }

    /// Whether a tool called `name` is bound.
    pub fn is_bound(&self, name: &str) -> (b: bool)
        ensures
            b == offers(self@, name@),
    {
        let owned = String::from_str(name);
        let ghost flags = occurrences(names_of(self@), name@);
        let mut i: usize = 0;
        while i < self.bound.len()
            invariant
                i <= self.bound@.len(),
                owned@ == name@,
                flags == occurrences(names_of(self@), name@),
                forall|j: int| 0 <= j < i ==> !flags[j],
            decreases self.bound@.len() - i,
        {
            if self.bound[i].is_named(&owned) {
                proof {
                    assert(is_first(flags, i as int));
                    lemma_first_found(flags, i as int);
                }
                return true;
            }
            i += 1;
        }
        proof {
            lemma_first_absent(flags);
        }
        false
    }

    /// The first half of a selected call: the request that the client handle
    /// sends for it. A name that is not bound is no call at all and gets
    /// `None`; the handle is not asked.
    pub fn begin_call(&self, client: &ClientHandle, name: &str, arguments: Arguments) -> (r:
        Option<Result<Request, ClientError>>)
        ensures
            match r {
                Some(request) => offers(self@, name@) && request_view(request)
                    == match client@.request_gate() {
                    Some(e) => Err::<RequestView, ClientErrorView>(e),
                    None => Ok::<RequestView, ClientErrorView>(
                        RequestView::Invocation { name: name@, arguments: arguments@ },
                    ),
                },
                None => !offers(self@, name@),
            },
    {
        if self.is_bound(name) {
            Some(client.begin_invoke(name, arguments))
        } else {
            None
        }
    }

    /// A selected call carried through `client` to `server` and back. A name
    /// that is not bound is no call at all and gets `None`; nothing is sent.
    pub fn dispatch<H: ToolHandler>(
        &self,
        client: &ClientHandle,
        server: &ServerEndpoint<H>,
        name: &str,
        arguments: Arguments,
    ) -> (r: Option<Result<ToolResult, ClientError>>)
        ensures
            match r {
                Some(outcome) => offers(self@, name@) && invocation_view(outcome)
                    == invoke_through(client@, server@, name@, arguments@),
                None => !offers(self@, name@),
            },
    {
        if self.is_bound(name) {
            Some(invoke(client, server, name, arguments))
        } else {
            None
        }
    }
}

} // verus!
