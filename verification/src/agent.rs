//! Binding listed tools onto an agent that is being built.
//!
//! The agent and its builder belong to `rig`, the listed tools and the
//! client that reaches them to `mcp_core`. What this module adds is the walk
//! over the listing, and the statement of what the builder holds afterwards.

use vstd::prelude::*;

verus! {

/// `mcp_core::types::Tool`: one entry of a server's tool listing, carried
/// through as it came.
#[verifier::external_type_specification]
#[verifier::external_body]
pub struct ExTool(mcp_core::types::Tool);

/// An agent under construction (`rig::agent::AgentBuilder` over the OpenAI
/// completion model), with the `mcp_core` client through which its tools
/// are reached. The host puts the two in and takes them out again; nothing
/// here looks inside them.
#[verifier::external_body]
pub struct AgentDraft {
    pub builder: rig::agent::AgentBuilder<rig::providers::openai::CompletionModel>,
    pub client: mcp_core::client::Client<mcp_core::transport::ServerSseTransport>,
}

/// The name under which a listed tool is offered: its field `name`.
pub uninterp spec fn offered_name(tool: mcp_core::types::Tool) -> Seq<char>;

/// The names of the tools that are always available to the agent being
/// built, in the order in which they were added: the builder's
/// `static_tools`.
pub uninterp spec fn static_tools(draft: AgentDraft) -> Seq<Seq<char>>;

/// The names of a run of listed tools, in order.
pub open spec fn offered_names(tools: Seq<mcp_core::types::Tool>) -> Seq<Seq<char>> {
    Seq::new(tools.len(), |i: int| offered_name(tools[i]))
}

/// `AgentBuilder::mcp_tool`: adds one listed tool to the agent being built,
/// to be reached through a clone of the draft's client. The builder appends
/// the tool's name to its static tools and changes none of the names that
/// are there.
#[verifier::external_body]
fn with_mcp_tool(draft: AgentDraft, tool: mcp_core::types::Tool) -> (r: AgentDraft)
    ensures
        static_tools(r) == static_tools(draft).push(offered_name(tool)),
{
    let AgentDraft { builder, client } = draft;
    AgentDraft { builder: builder.mcp_tool(tool, client.clone().into()), client }
}

/// Adds every listed tool to the agent being built, in listing order.
pub fn bind_listed_tools(draft: AgentDraft, tools: Vec<mcp_core::types::Tool>) -> (r: AgentDraft)
    ensures
        static_tools(r) == static_tools(draft) + offered_names(tools@),
{
    let ghost all = offered_names(tools@);
    let ghost start = static_tools(draft);
    let mut draft = draft;
    let mut rest = tools;
    let ghost mut done: int = 0;
    assert(start + all.take(0) =~= start);
    assert(all.skip(0) =~= all);
    while rest.len() > 0
        invariant
            0 <= done <= all.len(),
            rest@.len() == all.len() - done,
            offered_names(rest@) == all.skip(done),
            static_tools(draft) == start + all.take(done),
        decreases rest@.len(),
    {
        let ghost before = rest@;
        let tool = rest.remove(0);
        proof {
            assert(offered_name(tool) == offered_names(before)[0]);
            assert forall|i: int| 0 <= i < rest@.len() implies offered_names(rest@)[i]
                == all.skip(done + 1)[i] by {
                assert(rest@[i] == before[i + 1]);
                assert(offered_names(before)[i + 1] == all.skip(done)[i + 1]);
            }
            assert(offered_names(rest@) =~= all.skip(done + 1));
            assert(start + all.take(done + 1) =~= (start + all.take(done)).push(all[done]));
            done = done + 1;
        }
        draft = with_mcp_tool(draft, tool);
    }
    assert(all.take(all.len() as int) =~= all);
    draft
}

} // verus!
